//! What the service answers, and how it is read out of a JSON document.

use crate::json::{find_member, member_of, shape_error, JsonValue};
use vstd::prelude::*;

verus! {

/// Individual translation result.
///
/// Each input text produces one `Translation` entry in the response.
#[derive(Debug, Clone)]
pub struct Translation {
    /// Translated text.
    pub text: String,
    /// Detected source language code; present only when the request named no
    /// source language.
    pub detected_language_code: Option<String>,
}

/// A translation as a mathematical value.
pub struct TranslationView {
    pub text: Seq<char>,
    pub detected_language_code: Option<Seq<char>>,
}

impl View for Translation {
    type V = TranslationView;

    open spec fn view(&self) -> TranslationView {
        TranslationView {
            text: self.text@,
            detected_language_code: match self.detected_language_code {
                Some(code) => Some(code@),
                None => None,
            },
        }
    }
}

/// Response returned by the Yandex Translate API.
///
/// It holds one [`Translation`] for each input text, in the order of the
/// request's texts.
#[derive(Debug, Clone)]
pub struct TranslateResponse {
    /// List of translation results.
    pub translations: Vec<Translation>,
}

impl View for TranslateResponse {
    type V = Seq<TranslationView>;

    open spec fn view(&self) -> Seq<TranslationView> {
        Seq::new(self.translations@.len(), |i: int| self.translations@[i]@)
    }
}

/// The detected language that a translation object's members give: absent
/// and `null` both mean that none was detected; anything but a string is no
/// language code.
pub open spec fn detected_language(members: Seq<(String, JsonValue)>) -> Option<Option<Seq<char>>> {
    match member_of(members, "detectedLanguageCode"@) {
        None => Some(None),
        Some(JsonValue::Null) => Some(None),
        Some(JsonValue::Text(code)) => Some(Some(code@)),
        Some(_) => None,
    }
}

impl Translation {
    /// The translation that a JSON value denotes: an object whose `text` is a
    /// string and whose `detectedLanguageCode`, if there is one, is a string
    /// or `null`. Other members are passed over.
    pub open spec fn decoded(value: JsonValue) -> Option<TranslationView> {
        match value {
            JsonValue::Object(members) => match (
                member_of(members@, "text"@),
                detected_language(members@),
            ) {
                (Some(JsonValue::Text(text)), Some(detected)) => Some(
                    TranslationView { text: text@, detected_language_code: detected },
                ),
                _ => None,
            },
            _ => None,
        }
    }

    /// Reads one translation out of a JSON value.
    pub fn from_json(value: &JsonValue) -> (r: Result<Translation, serde_json::Error>)
        ensures
            match r {
                Ok(translation) => Translation::decoded(*value) == Some(translation@),
                Err(_) => Translation::decoded(*value) is None,
            },
    {
        let members = match value {
            JsonValue::Object(members) => members,
            _ => { return Err(shape_error("invalid type: expected a translation object")); },
        };
        let text = match find_member(members, "text") {
            Some(JsonValue::Text(text)) => text.clone(),
            Some(_) => { return Err(shape_error("invalid type: `text` must be a string")); },
            None => { return Err(shape_error("missing field `text`")); },
        };
        let detected_language_code = match find_member(members, "detectedLanguageCode") {
            None => None,
            Some(JsonValue::Null) => None,
            Some(JsonValue::Text(code)) => Some(code.clone()),
            Some(_) => {
                return Err(
                    shape_error("invalid type: `detectedLanguageCode` must be a string or null"),
                );
            },
        };
        Ok(Translation { text, detected_language_code })
    }
}

impl TranslateResponse {
    /// The translations that a list of JSON values denotes, one for each value
    /// and in the same order; `None` where one of them is no translation.
    pub open spec fn decoded_list(items: Seq<JsonValue>) -> Option<Seq<TranslationView>> {
        if forall|i: int| 0 <= i < items.len() ==> (#[trigger] Translation::decoded(items[i])) is Some {
            Some(Seq::new(items.len(), |i: int| Translation::decoded(items[i])->Some_0))
        } else {
            None
        }
    }

    /// The response that a JSON document denotes: an object whose
    /// `translations` is an array of translations. Other members are passed
    /// over.
    pub open spec fn decoded(document: JsonValue) -> Option<Seq<TranslationView>> {
        match document {
            JsonValue::Object(members) => match member_of(members@, "translations"@) {
                Some(JsonValue::Array(items)) => TranslateResponse::decoded_list(items@),
                _ => None,
            },
            _ => None,
        }
    }

    /// Reads a response out of a JSON document.
    pub fn from_json(document: &JsonValue) -> (r: Result<TranslateResponse, serde_json::Error>)
        ensures
            match r {
                Ok(response) => TranslateResponse::decoded(*document) == Some(response@),
                Err(_) => TranslateResponse::decoded(*document) is None,
            },
    {
        let members = match document {
            JsonValue::Object(members) => members,
            _ => { return Err(shape_error("invalid type: expected a response object")); },
        };
        let items = match find_member(members, "translations") {
            Some(JsonValue::Array(items)) => items,
            Some(_) => { return Err(shape_error("invalid type: `translations` must be an array")); },
            None => { return Err(shape_error("missing field `translations`")); },
        };
        let mut translations: Vec<Translation> = Vec::new();
        let mut i: usize = 0;
        while i < items.len()
            invariant
                i <= items.len(),
                translations@.len() == i,
                TranslateResponse::decoded(*document) == TranslateResponse::decoded_list(items@),
                forall|j: int|
                    0 <= j < i ==> Translation::decoded(items@[j]) == Some(
                        #[trigger] translations@[j]@,
                    ),
            decreases items.len() - i,
        {
            match Translation::from_json(&items[i]) {
                Ok(translation) => translations.push(translation),
                Err(e) => {
                    assert(Translation::decoded(items@[i as int]) is None);
                    return Err(e);
                },
            }
            i += 1;
        }
        let response = TranslateResponse { translations };
        assert(TranslateResponse::decoded_list(items@) == Some(response@)) by {
            assert forall|j: int| 0 <= j < items@.len() implies (#[trigger] Translation::decoded(
                items@[j],
            )) is Some by {
                assert(Translation::decoded(items@[j]) == Some(translations@[j]@));
            }
            assert(TranslateResponse::decoded_list(items@)->Some_0 =~= response@);
        }
        Ok(response)
    }
}

/// A response follows its document: it holds one translation for each entry
/// of the `translations` array, and the translation at each place is the one
/// that the entry at that place denotes.
pub proof fn lemma_translations_follow_the_entries(items: Seq<JsonValue>)
    requires
        TranslateResponse::decoded_list(items) is Some,
    ensures
        TranslateResponse::decoded_list(items)->Some_0.len() == items.len(),
        forall|i: int|
            0 <= i < items.len() ==> Translation::decoded(items[i]) == Some(
                #[trigger] TranslateResponse::decoded_list(items)->Some_0[i],
            ),
{
}

} // verus!
