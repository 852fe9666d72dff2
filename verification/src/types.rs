//! Identifiers and keywords: the symbolic tokens of a statement.

use vstd::prelude::*;
use vstd::string::*;

verus! {

/// A symbolic SQL token (a table, a column, a unit, a keyword) that can
/// write itself as bare text.
pub trait Iden {
    /// The bare text of this token.
    spec fn unquoted_text(&self) -> Seq<char>;

    /// Appends the bare text of this token to `s`.
    fn unquoted(&self, s: &mut String)
        ensures
            final(s)@ == old(s)@ + self.unquoted_text(),
    ;

    /// This token as an identifier that no longer depends on its type.
    fn into_iden(&self) -> (iden: DynIden)
        ensures
            iden@ == self.unquoted_text(),
    {
        let mut text = String::new();
        self.unquoted(&mut text);
        assert(text@ =~= self.unquoted_text());
        DynIden { text }
    }
}

/// An identifier whose bare text is held as a string.
#[derive(Debug, PartialEq, Eq)]
pub struct DynIden {
    pub text: String,
}

impl View for DynIden {
    type V = Seq<char>;

    open spec fn view(&self) -> Seq<char> {
        self.text@
    }
}

impl Clone for DynIden {
    fn clone(&self) -> (copy: DynIden)
        ensures
            copy@ == self@,
    {
        DynIden { text: self.text.clone() }
    }
}

impl Iden for DynIden {
    open spec fn unquoted_text(&self) -> Seq<char> {
        self@
    }

    fn unquoted(&self, s: &mut String) {
        s.append(self.text.as_str());
    }
}

/// A name given as free text.
#[derive(Debug, PartialEq, Eq)]
pub struct Alias(pub String);

impl Alias {
    pub fn new(name: &str) -> (alias: Alias)
        ensures
            alias.0@ == name@,
    {
        Alias(name.to_owned())
    }
}

impl Clone for Alias {
    fn clone(&self) -> (copy: Alias)
        ensures
            copy.0@ == self.0@,
    {
        Alias(self.0.clone())
    }
}

impl Iden for Alias {
    open spec fn unquoted_text(&self) -> Seq<char> {
        self.0@
    }

    fn unquoted(&self, s: &mut String) {
        s.append(self.0.as_str());
    }
}

/// What a [`Keyword`] stands for.
pub enum KeywordView {
    Null,
    CurrentDate,
    CurrentTime,
    CurrentTimestamp,
    Custom(Seq<char>),
}

/// A bare SQL token that is never quoted and never bound as a parameter.
#[derive(Debug, PartialEq, Eq)]
pub enum Keyword {
    Null,
    CurrentDate,
    CurrentTime,
    CurrentTimestamp,
    Custom(DynIden),
}

impl View for Keyword {
    type V = KeywordView;

    open spec fn view(&self) -> KeywordView {
        match self {
            Keyword::Null => KeywordView::Null,
            Keyword::CurrentDate => KeywordView::CurrentDate,
            Keyword::CurrentTime => KeywordView::CurrentTime,
            Keyword::CurrentTimestamp => KeywordView::CurrentTimestamp,
            Keyword::Custom(iden) => KeywordView::Custom(iden@),
        }
    }
}

impl Clone for Keyword {
    fn clone(&self) -> (copy: Keyword)
        ensures
            copy@ == self@,
    {
        match self {
            Keyword::Null => Keyword::Null,
            Keyword::CurrentDate => Keyword::CurrentDate,
            Keyword::CurrentTime => Keyword::CurrentTime,
            Keyword::CurrentTimestamp => Keyword::CurrentTimestamp,
            Keyword::Custom(iden) => Keyword::Custom(iden.clone()),
        }
    }
}

/// The text of a keyword: a fixed token, or the bare text of the identifier
/// that a custom keyword wraps.
pub open spec fn keyword_text(keyword: KeywordView) -> Seq<char> {
    match keyword {
        KeywordView::Null => "NULL"@,
        KeywordView::CurrentDate => "CURRENT_DATE"@,
        KeywordView::CurrentTime => "CURRENT_TIME"@,
        KeywordView::CurrentTimestamp => "CURRENT_TIMESTAMP"@,
        KeywordView::Custom(text) => text,
    }
}

} // verus!
