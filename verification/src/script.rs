//! The script that is handed to a webview when it is built.

use vstd::prelude::*;
use vstd::string::*;

verus! {

/// A script under construction: statements, each closed by a semicolon.
pub struct LuaWebViewScript {
    raw: String,
}

impl View for LuaWebViewScript {
    type V = Seq<char>;

    closed spec fn view(&self) -> Seq<char> {
        self.raw@
    }
}

impl LuaWebViewScript {
    /// A script without statements.
    pub fn new() -> (script: LuaWebViewScript)
        ensures
            script@ == Seq::<char>::empty(),
    {
        LuaWebViewScript { raw: String::new() }
    }

    /// The finished script.
    pub fn read(self) -> (text: Box<str>)
        ensures
            text@ == self@,
    {
        boxed(self.raw.as_str())
    }

    /// Appends `string` as one statement.
    pub fn write(&mut self, string: &str)
        ensures
            final(self)@ == old(self)@ + string@ + seq![';'],
    {
        self.raw.append(string);
        self.raw.append(";");
        proof {
            reveal_strlit(";");
            assert(";"@ =~= seq![';']);
        }
    }

    /// Appends what `option` holds as one statement, and an empty
    /// statement when it holds nothing.
    pub fn extract_from_option(&mut self, option: Option<String>)
        ensures
            final(self)@ == old(self)@ + statement_of(option) + seq![';'],
    {
        let binding = option.unwrap_or_default();
        self.write(binding.as_str());
    }
}

/// `Box<str>::from` of std, on a `&str`: a boxed copy of the same text.
#[verifier::external_body]
fn boxed(text: &str) -> (copy: Box<str>)
    ensures
        copy@ == text@,
{
    Box::from(text)
}

/// The text that an optional statement stands for.
pub open spec fn statement_of(option: Option<String>) -> Seq<char> {
    match option {
        Some(string) => string@,
        None => Seq::empty(),
    }
}

} // verus!
