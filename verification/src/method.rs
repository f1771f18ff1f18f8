//! Request methods.

use vstd::prelude::*;
use vstd::utf8::is_ascii_chars;

use crate::headers::is_token_char;

verus! {

/// What `str::to_uppercase` makes of a text.
pub uninterp spec fn uppercased(text: Seq<char>) -> Seq<char>;

/// An ASCII letter in upper case.
pub open spec fn upper_char(c: char) -> char {
    if 'a' <= c <= 'z' {
        ((c as u8) - 32) as char
    } else {
        c
    }
}

/// A text with its ASCII letters in upper case.
pub open spec fn ascii_upper(text: Seq<char>) -> Seq<char> {
    text.map_values(|c: char| upper_char(c))
}

/// `str::to_uppercase` turns every character to upper case by the rules of
/// Unicode; of an ASCII text it changes the letters alone.
#[verifier::external_body]
pub(crate) fn to_uppercase(text: &str) -> (upper: String)
    ensures
        upper@ == uppercased(text@),
        is_ascii_chars(text@) ==> upper@ == ascii_upper(text@),
{
    text.to_uppercase()
}

/// A text that is a method: a token.
pub open spec fn valid_method(text: Seq<char>) -> bool {
    &&& text.len() > 0
    &&& forall|i: int| 0 <= i < text.len() ==> is_token_char(#[trigger] text[i])
}

/// `reqwest::Method::from_bytes` takes any token, as it is written. What it
/// says of any other text is its error's message.
#[verifier::external_body]
fn method_from_bytes(text: &str) -> (result: Result<String, String>)
    ensures
        result is Ok <==> valid_method(text@),
        result matches Ok(method) ==> method@ == text@,
        result matches Err(message) ==> message@ == "invalid HTTP method"@,
{
    match reqwest::Method::from_bytes(text.as_bytes()) {
        Ok(method) => Ok(method.as_str().to_string()),
        Err(error) => Err(error.to_string()),
    }
}

/// A method, by its name. Names are told apart by case.
#[derive(Debug)]
pub struct Method {
    text: String,
}

impl View for Method {
    type V = Seq<char>;

    closed spec fn view(&self) -> Seq<char> {
        self.text@
    }
}

impl Method {
    #[verifier::type_invariant]
    spec fn is_token(self) -> bool {
        valid_method(self.text@)
    }

    /// The method of a name, or what is wrong with the name.
    pub fn parse(text: &str) -> (result: Result<Method, String>)
        ensures
            result is Ok <==> valid_method(text@),
            result matches Ok(method) ==> method@ == text@,
            result matches Err(message) ==> message@ == "invalid HTTP method"@,
    {
        match method_from_bytes(text) {
            Ok(text) => Ok(Method { text }),
            Err(message) => Err(message),
        }
    }

    /// The name of the method.
    pub fn as_str(&self) -> (text: &str)
        ensures
            text@ == self@,
            valid_method(text@),
    {
        proof {
            use_type_invariant(self);
        }
        self.text.as_str()
    }

    /// Whether this is the method of that name.
    pub fn is(&self, name: &str) -> (same: bool)
        ensures
            same == (self@ == name@),
    {
        self.text == name.to_string()
    }
}

/// In upper case the letters from `a` to `z` are those from `A` to `Z`, and any
/// other character is itself.
pub proof fn law_upper_case(text: Seq<char>)
    ensures
        ascii_upper(text).len() == text.len(),
        forall|i: int|
            0 <= i < text.len() ==> {
                let upper = #[trigger] ascii_upper(text)[i];
                &&& 'a' <= text[i] <= 'z' ==> upper as int == text[i] as int - 'a' as int
                    + 'A' as int
                &&& !('a' <= text[i] <= 'z') ==> upper == text[i]
            },
{
}

} // verus!
