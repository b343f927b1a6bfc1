//! What is asked of the service, and the JSON body that carries it.

use crate::json::{
    array_text, json_string_literal, object_text, pairs_of, string_literal, views_of, write_array,
    write_object,
};
use vstd::prelude::*;
use vstd::string::StringExecFns;

verus! {

/// Request body for a translation operation.
///
/// The request borrows its strings from the caller for the duration of the
/// call.
#[derive(Debug, Clone, Copy)]
pub struct TranslateRequest<'a> {
    /// Identifier of the Yandex Cloud folder under which the request is
    /// billed and authorized.
    pub folder_id: &'a str,
    /// Texts to be translated, each on its own; the results come back in the
    /// same order.
    pub texts: &'a [&'a str],
    /// Target language code (ISO 639-1).
    pub target_language_code: &'a str,
    /// Source language code (ISO 639-1); when absent the service detects the
    /// language of each text.
    pub source_language_code: Option<&'a str>,
}

/// A request as a mathematical value.
pub struct TranslateRequestView {
    pub folder_id: Seq<char>,
    pub texts: Seq<Seq<char>>,
    pub target_language_code: Seq<char>,
    pub source_language_code: Option<Seq<char>>,
}

impl<'a> View for TranslateRequest<'a> {
    type V = TranslateRequestView;

    open spec fn view(&self) -> TranslateRequestView {
        TranslateRequestView {
            folder_id: self.folder_id@,
            texts: Seq::new(self.texts@.len(), |i: int| self.texts@[i]@),
            target_language_code: self.target_language_code@,
            source_language_code: match self.source_language_code {
                Some(code) => Some(code@),
                None => None,
            },
        }
    }
}

/// The string literals of a list of texts, in order.
pub open spec fn literals_of(texts: Seq<Seq<char>>) -> Seq<Seq<char>> {
    Seq::new(texts.len(), |i: int| json_string_literal(texts[i]))
}

impl TranslateRequestView {
    /// The members that every body has, in the order in which they are
    /// written: the folder, the texts, the target language.
    pub open spec fn required_members(self) -> Seq<(Seq<char>, Seq<char>)> {
        seq![
            ("folderId"@, json_string_literal(self.folder_id)),
            ("texts"@, array_text(literals_of(self.texts))),
            ("targetLanguageCode"@, json_string_literal(self.target_language_code)),
        ]
    }

    /// The members of the body: the required ones, followed by the source
    /// language where the request names one.
    pub open spec fn members(self) -> Seq<(Seq<char>, Seq<char>)> {
        match self.source_language_code {
            Some(code) => self.required_members().push(
                ("sourceLanguageCode"@, json_string_literal(code)),
            ),
            None => self.required_members(),
        }
    }

    /// The JSON text of the body.
    pub open spec fn json_text(self) -> Seq<char> {
        object_text(self.members())
    }
}

/// Whether one of the members has the key.
pub open spec fn has_key(members: Seq<(Seq<char>, Seq<char>)>, key: Seq<char>) -> bool {
    exists|i: int| 0 <= i < members.len() && (#[trigger] members[i]).0 == key
}

/// A request without a source language is written without the
/// `sourceLanguageCode` member: the body has the three required members and
/// no other, and none of them has that key.
pub proof fn lemma_absent_source_language_is_omitted(request: TranslateRequestView)
    requires
        request.source_language_code is None,
    ensures
        request.members() == request.required_members(),
        request.members().len() == 3,
        !has_key(request.members(), "sourceLanguageCode"@),
{
    reveal_strlit("sourceLanguageCode");
    reveal_strlit("folderId");
    reveal_strlit("texts");
    reveal_strlit("targetLanguageCode");
    let members = request.members();
    assert(members[0].0.len() == 8);
    assert(members[1].0.len() == 5);
    assert(members[2].0 == "targetLanguageCode"@);
    assert(members[2].0[0] == 't');
    assert("sourceLanguageCode"@[0] == 's');
}

/// A request with a source language is written with it as the last member,
/// after the three required ones.
pub proof fn lemma_present_source_language_is_written(request: TranslateRequestView)
    requires
        request.source_language_code is Some,
    ensures
        request.members().len() == 4,
        request.members().take(3) == request.required_members(),
        request.members()[3] == (
            "sourceLanguageCode"@,
            json_string_literal(request.source_language_code->Some_0),
        ),
{
    assert(request.members().take(3) =~= request.required_members());
}

impl<'a> TranslateRequest<'a> {
    /// Writes the request as the JSON body of the call.
    pub fn to_json(&self) -> (body: String)
        ensures
            body@ == self@.json_text(),
    {
        let mut literals: Vec<String> = Vec::new();
        let mut i: usize = 0;
        while i < self.texts.len()
            invariant
                i <= self.texts@.len(),
                literals@.len() == i,
                forall|j: int|
                    0 <= j < i ==> (#[trigger] literals@[j])@ == json_string_literal(
                        self.texts@[j]@,
                    ),
            decreases self.texts@.len() - i,
        {
            literals.push(string_literal(self.texts[i]));
            i += 1;
        }
        assert(views_of(literals@) =~= literals_of(self@.texts));

        let mut members: Vec<(String, String)> = Vec::new();
        members.push((String::from_str("folderId"), string_literal(self.folder_id)));
        members.push((String::from_str("texts"), write_array(&literals)));
        members.push(
            (String::from_str("targetLanguageCode"), string_literal(self.target_language_code)),
        );
        if let Some(code) = self.source_language_code {
            members.push((String::from_str("sourceLanguageCode"), string_literal(code)));
        }
        assert(pairs_of(members@) =~= self@.members());
        write_object(&members)
    }
}

} // verus!
