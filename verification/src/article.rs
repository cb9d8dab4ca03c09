//! Articles of the article register.

use crate::json::{lemma_find_pushed, members_view, push_text, Json, JsonValue, Member};
use crate::resource::Resource;
use vstd::prelude::*;
use vstd::string::*;

verus! {

/// An article as the remote service describes it.
#[derive(Debug, Clone, PartialEq, Eq)]
pub struct Article {
    pub article_number: String,
    pub description: String,
}

/// The mathematical value of an [`Article`].
pub struct ArticleView {
    pub article_number: Seq<char>,
    pub description: Seq<char>,
}

impl View for Article {
    type V = ArticleView;

    open spec fn view(&self) -> ArticleView {
        ArticleView { article_number: self.article_number@, description: self.description@ }
    }
}

impl ArticleView {
    /// The document that describes the article: an object with the members
    /// `ArticleNumber` and `Description`, in this order.
    pub open spec fn encoded(self) -> JsonValue {
        JsonValue::Object(
            Seq::empty().push(("ArticleNumber"@, JsonValue::Text(self.article_number))).push(
                ("Description"@, JsonValue::Text(self.description)),
            ),
        )
    }
}

impl Resource for Article {
    open spec fn wire_name() -> Seq<char> {
        "Article"@
    }

    /// A document describes an article if it has the string members
    /// `ArticleNumber` and `Description`; other members are ignored.
    open spec fn decoded(doc: JsonValue) -> Option<ArticleView> {
        match (doc.text_member("ArticleNumber"@), doc.text_member("Description"@)) {
            (Some(article_number), Some(description)) => Some(
                ArticleView { article_number, description },
            ),
            _ => None,
        }
    }

    fn name() -> (name: &'static str) {
        "Article"
    }

    fn from_json(doc: &Json) -> (value: Option<Article>) {
        let article_number = doc.text_member("ArticleNumber");
        let description = doc.text_member("Description");
        match (article_number, description) {
            (Some(article_number), Some(description)) => Some(
                Article { article_number, description },
            ),
            _ => None,
        }
    }
}

impl Article {
    /// Writes the document that describes the article.
    pub fn to_json(&self) -> (doc: Json)
        ensures
            doc@ == self@.encoded(),
    {
        let mut members: Vec<Member> = Vec::new();
        assert(members_view(&members) =~= Seq::empty());
        push_text(&mut members, "ArticleNumber", &self.article_number);
        push_text(&mut members, "Description", &self.description);
        Json::object(members)
    }
}

/// Reading the document that describes an article gives the article back.
pub proof fn lemma_article_round_trip(article: ArticleView)
    ensures
        Article::decoded(article.encoded()) == Some(article),
{
    reveal_strlit("ArticleNumber");
    reveal_strlit("Description");
    let first = Seq::empty().push(("ArticleNumber"@, JsonValue::Text(article.article_number)));
    lemma_find_pushed(Seq::empty(), "ArticleNumber"@, JsonValue::Text(article.article_number), "ArticleNumber"@);
    lemma_find_pushed(Seq::empty(), "ArticleNumber"@, JsonValue::Text(article.article_number), "Description"@);
    lemma_find_pushed(first, "Description"@, JsonValue::Text(article.description), "ArticleNumber"@);
    lemma_find_pushed(first, "Description"@, JsonValue::Text(article.description), "Description"@);
    assert("ArticleNumber"@ != "Description"@) by {
        assert("ArticleNumber"@.len() != "Description"@.len());
    }
}

} // verus!
