//! The numeric reason codes that the remote service attaches to its errors.

use vstd::prelude::*;

verus! {

/// The reason the remote service gives for refusing a request.
///
/// Every variant but `Unknown` stands for exactly one numeric code of the
/// remote service; `Unknown` stands for code zero and for every code that
/// has no variant of its own.
#[derive(Debug, PartialEq, Eq, Clone, Copy, Structural)]
pub enum ApiErrorCode {
    Unknown,
    /// Something went wrong on the remote side.
    SystemException,
    /// The requested response type (Accept) was invalid.
    InvalidResponseType,
    /// The provided content type was invalid.
    InvalidContentType,
    /// The value needs to be alphanumeric.
    NotAlphanumeric,
    /// The value needs to be numeric.
    NotNumeric,
    /// The value needs to be boolean.
    NotBoolean,
    /// The client secret or the access token is missing or incorrect.
    InvalidCredentials,
    /// The client secret or the access token is missing (second form).
    InvalidCredentials2,
    /// The value contains invalid characters.
    InvalidCharacters,
    /// A parameter of the call is invalid.
    InvalidParameters,
    /// The customer number is, or has been, in use already.
    CustomerNumberHasAlreadyBeenUsed,
    /// A valid identifier was not provided.
    AValidIdentifierWasNotProvided,
    /// The account has no license to use the API.
    NoLicense,
    /// The request body was empty or contained incorrect data.
    IncorrectData,
    /// The XML object contained an error.
    CouldNotReadDocument,
    /// The JSON object contained an error.
    CouldNotDeserializeJson,
    /// Could not find the account.
    AccountNotFound,
    /// Invalid field name.
    InvalidFieldName,
    /// There is no active license for the desired scope.
    NoActiveLicenseForScope,
    /// No access to the current scope.
    NoAccessToScope,
    /// An account is missing for purchases with reversed tax liability.
    AccountIsMissingForPurchaseSeReversedTaxLiability,
    /// The supplier invoice does not balance.
    SupplierInvoiceDoesNotBalance,
    /// Tax rows for VAT type REVERSE must be marked with the matching code.
    TaxRowsForVatTypeReverseMustBeMarkedWithCode,
    /// Only delivered orders can be marked as completed.
    OnlyDeliveredOrdersCanBeMarkedCompleted,
    /// A completed document cannot be changed.
    CannotChangeCompletedDocument,
    /// The delivery date cannot be later than today.
    DeliveryDateCannotBeLaterThanToday,
    /// The migration has already been started or completed.
    MigrationAlreadyStartedOrCompleted,
    /// Not authenticated.
    NotAuthenticated,
    /// Not found in the warehouse module.
    CouldNotBeFoundInWarehouseModule,
    /// The document is voided in the warehouse module.
    DocumentIsDeletedInWarehouseModule,
    /// An error occurred in the warehouse module.
    AnErrorOccurredInWarehouseModule,
    /// The customer of the request is not in the customer register.
    CouldNotFindCustomer,
    /// The customer of the request is not in the customer register (second form).
    CouldNotFindCustomer2,
    /// Could not find the article used in the request.
    CouldNotFindArticle,
    /// Could not find the article (second form).
    CouldNotFindArticle2,
}

impl ApiErrorCode {
    /// The numeric code that this variant stands for on the wire.
    pub open spec fn spec_code(self) -> u32 {
        match self {
            ApiErrorCode::Unknown => 0,
            ApiErrorCode::SystemException => 1000003,
            ApiErrorCode::InvalidResponseType => 1000030,
            ApiErrorCode::InvalidContentType => 1000031,
            ApiErrorCode::NotAlphanumeric => 2000106,
            ApiErrorCode::NotNumeric => 2000108,
            ApiErrorCode::NotBoolean => 2000134,
            ApiErrorCode::InvalidCredentials => 2000310,
            ApiErrorCode::InvalidCredentials2 => 2000311,
            ApiErrorCode::InvalidCharacters => 2000359,
            ApiErrorCode::InvalidParameters => 2000588,
            ApiErrorCode::CustomerNumberHasAlreadyBeenUsed => 2000637,
            ApiErrorCode::AValidIdentifierWasNotProvided => 2000729,
            ApiErrorCode::NoLicense => 2001103,
            ApiErrorCode::IncorrectData => 2001392,
            ApiErrorCode::CouldNotReadDocument => 2001740,
            ApiErrorCode::CouldNotDeserializeJson => 2002115,
            ApiErrorCode::AccountNotFound => 2001304,
            ApiErrorCode::InvalidFieldName => 2001399,
            ApiErrorCode::NoActiveLicenseForScope => 2001101,
            ApiErrorCode::NoAccessToScope => 2000663,
            ApiErrorCode::AccountIsMissingForPurchaseSeReversedTaxLiability => 2003095,
            ApiErrorCode::SupplierInvoiceDoesNotBalance => 2000755,
            ApiErrorCode::TaxRowsForVatTypeReverseMustBeMarkedWithCode => 2003115,
            ApiErrorCode::OnlyDeliveredOrdersCanBeMarkedCompleted => 2003124,
            ApiErrorCode::CannotChangeCompletedDocument => 2003125,
            ApiErrorCode::DeliveryDateCannotBeLaterThanToday => 2003126,
            ApiErrorCode::MigrationAlreadyStartedOrCompleted => 2003241,
            ApiErrorCode::NotAuthenticated => 2003275,
            ApiErrorCode::CouldNotBeFoundInWarehouseModule => 2003277,
            ApiErrorCode::DocumentIsDeletedInWarehouseModule => 2003399,
            ApiErrorCode::AnErrorOccurredInWarehouseModule => 2003127,
            ApiErrorCode::CouldNotFindCustomer => 2000204,
            ApiErrorCode::CouldNotFindCustomer2 => 2000433,
            ApiErrorCode::CouldNotFindArticle => 2001302,
            ApiErrorCode::CouldNotFindArticle2 => 2000428,
        }
    }

    /// Whether some variant stands for `code`.
    pub open spec fn is_mapped(code: u32) -> bool {
        exists|c: ApiErrorCode| #[trigger] c.spec_code() == code
    }

    /// The variant that stands for `code`: the one whose numeric code it is,
    /// and `Unknown` where no variant has that code.
    pub open spec fn spec_from_code(code: u32) -> ApiErrorCode {
        if Self::is_mapped(code) {
            choose|c: ApiErrorCode| #[trigger] c.spec_code() == code
        } else {
            ApiErrorCode::Unknown
        }
    }

    /// The numeric code that this variant stands for on the wire.
    pub fn code(self) -> (n: u32)
        ensures
            n == self.spec_code(),
    {
        match self {
            ApiErrorCode::Unknown => 0,
            ApiErrorCode::SystemException => 1000003,
            ApiErrorCode::InvalidResponseType => 1000030,
            ApiErrorCode::InvalidContentType => 1000031,
            ApiErrorCode::NotAlphanumeric => 2000106,
            ApiErrorCode::NotNumeric => 2000108,
            ApiErrorCode::NotBoolean => 2000134,
            ApiErrorCode::InvalidCredentials => 2000310,
            ApiErrorCode::InvalidCredentials2 => 2000311,
            ApiErrorCode::InvalidCharacters => 2000359,
            ApiErrorCode::InvalidParameters => 2000588,
            ApiErrorCode::CustomerNumberHasAlreadyBeenUsed => 2000637,
            ApiErrorCode::AValidIdentifierWasNotProvided => 2000729,
            ApiErrorCode::NoLicense => 2001103,
            ApiErrorCode::IncorrectData => 2001392,
            ApiErrorCode::CouldNotReadDocument => 2001740,
            ApiErrorCode::CouldNotDeserializeJson => 2002115,
            ApiErrorCode::AccountNotFound => 2001304,
            ApiErrorCode::InvalidFieldName => 2001399,
            ApiErrorCode::NoActiveLicenseForScope => 2001101,
            ApiErrorCode::NoAccessToScope => 2000663,
            ApiErrorCode::AccountIsMissingForPurchaseSeReversedTaxLiability => 2003095,
            ApiErrorCode::SupplierInvoiceDoesNotBalance => 2000755,
            ApiErrorCode::TaxRowsForVatTypeReverseMustBeMarkedWithCode => 2003115,
            ApiErrorCode::OnlyDeliveredOrdersCanBeMarkedCompleted => 2003124,
            ApiErrorCode::CannotChangeCompletedDocument => 2003125,
            ApiErrorCode::DeliveryDateCannotBeLaterThanToday => 2003126,
            ApiErrorCode::MigrationAlreadyStartedOrCompleted => 2003241,
            ApiErrorCode::NotAuthenticated => 2003275,
            ApiErrorCode::CouldNotBeFoundInWarehouseModule => 2003277,
            ApiErrorCode::DocumentIsDeletedInWarehouseModule => 2003399,
            ApiErrorCode::AnErrorOccurredInWarehouseModule => 2003127,
            ApiErrorCode::CouldNotFindCustomer => 2000204,
            ApiErrorCode::CouldNotFindCustomer2 => 2000433,
            ApiErrorCode::CouldNotFindArticle => 2001302,
            ApiErrorCode::CouldNotFindArticle2 => 2000428,
        }
    }

    /// Classifies a numeric code received from the remote service. A code
    /// without a variant of its own is classified as `Unknown`; the
    /// classification never fails.
    pub fn from_code(code: u32) -> (c: ApiErrorCode)
        ensures
            c == Self::spec_from_code(code),
            Self::is_mapped(code) ==> c.spec_code() == code,
            !Self::is_mapped(code) ==> c == ApiErrorCode::Unknown,
    {
        let c = match code {
            0 => ApiErrorCode::Unknown,
            1000003 => ApiErrorCode::SystemException,
            1000030 => ApiErrorCode::InvalidResponseType,
            1000031 => ApiErrorCode::InvalidContentType,
            2000106 => ApiErrorCode::NotAlphanumeric,
            2000108 => ApiErrorCode::NotNumeric,
            2000134 => ApiErrorCode::NotBoolean,
            2000310 => ApiErrorCode::InvalidCredentials,
            2000311 => ApiErrorCode::InvalidCredentials2,
            2000359 => ApiErrorCode::InvalidCharacters,
            2000588 => ApiErrorCode::InvalidParameters,
            2000637 => ApiErrorCode::CustomerNumberHasAlreadyBeenUsed,
            2000729 => ApiErrorCode::AValidIdentifierWasNotProvided,
            2001103 => ApiErrorCode::NoLicense,
            2001392 => ApiErrorCode::IncorrectData,
            2001740 => ApiErrorCode::CouldNotReadDocument,
            2002115 => ApiErrorCode::CouldNotDeserializeJson,
            2001304 => ApiErrorCode::AccountNotFound,
            2001399 => ApiErrorCode::InvalidFieldName,
            2001101 => ApiErrorCode::NoActiveLicenseForScope,
            2000663 => ApiErrorCode::NoAccessToScope,
            2003095 => ApiErrorCode::AccountIsMissingForPurchaseSeReversedTaxLiability,
            2000755 => ApiErrorCode::SupplierInvoiceDoesNotBalance,
            2003115 => ApiErrorCode::TaxRowsForVatTypeReverseMustBeMarkedWithCode,
            2003124 => ApiErrorCode::OnlyDeliveredOrdersCanBeMarkedCompleted,
            2003125 => ApiErrorCode::CannotChangeCompletedDocument,
            2003126 => ApiErrorCode::DeliveryDateCannotBeLaterThanToday,
            2003241 => ApiErrorCode::MigrationAlreadyStartedOrCompleted,
            2003275 => ApiErrorCode::NotAuthenticated,
            2003277 => ApiErrorCode::CouldNotBeFoundInWarehouseModule,
            2003399 => ApiErrorCode::DocumentIsDeletedInWarehouseModule,
            2003127 => ApiErrorCode::AnErrorOccurredInWarehouseModule,
            2000204 => ApiErrorCode::CouldNotFindCustomer,
            2000433 => ApiErrorCode::CouldNotFindCustomer2,
            2001302 => ApiErrorCode::CouldNotFindArticle,
            2000428 => ApiErrorCode::CouldNotFindArticle2,
            _ => ApiErrorCode::Unknown,
        };
        proof {
            Self::lemma_codes_distinct();
            if c.spec_code() == code {
                assert(Self::is_mapped(code));
            } else {
                assert(forall|w: ApiErrorCode| #[trigger] w.spec_code() != code);
            }
        }
        c
    }

    /// No two variants stand for the same numeric code.
    pub proof fn lemma_codes_distinct()
        ensures
            forall|a: ApiErrorCode, b: ApiErrorCode|
                #[trigger] a.spec_code() == #[trigger] b.spec_code() ==> a == b,
    {
    }

    /// Classifying the code of a variant gives that variant back.
    pub proof fn lemma_from_code_of_code(c: ApiErrorCode)
        ensures
            Self::spec_from_code(c.spec_code()) == c,
    {
        Self::lemma_codes_distinct();
        assert(Self::is_mapped(c.spec_code()));
    }

    /// A classification other than `Unknown` carries the code it was made
    /// from: no code is ever classified as a variant that stands for another.
    pub proof fn lemma_code_of_from_code(code: u32)
        ensures
            Self::spec_from_code(code) != ApiErrorCode::Unknown ==> Self::spec_from_code(
                code,
            ).spec_code() == code,
            Self::spec_from_code(code) == ApiErrorCode::Unknown <==> (code == 0
                || !Self::is_mapped(code)),
    {
        Self::lemma_codes_distinct();
        if Self::is_mapped(code) {
            let w = choose|w: ApiErrorCode| #[trigger] w.spec_code() == code;
            assert(w.spec_code() == code);
            if code == 0 {
                assert(ApiErrorCode::Unknown.spec_code() == 0);
            }
        }
    }
}

} // verus!
