//! The keys of the stored settings.

use vstd::prelude::*;

use crate::text::same_text;

verus! {

/// A key of the stored settings.
#[derive(Clone, Copy, Debug, PartialEq, Eq)]
pub enum Key {
    Username,
    LatestSync,
    WindowWidth,
    WindowHeight,
    WindowX,
    WindowY,
    IsMaximized,
}

/// The name of a key in the settings schema: its variant in kebab case.
pub open spec fn key_name(k: Key) -> Seq<char> {
    match k {
        Key::Username => "username"@,
        Key::LatestSync => "latest-sync"@,
        Key::WindowWidth => "window-width"@,
        Key::WindowHeight => "window-height"@,
        Key::WindowX => "window-x"@,
        Key::WindowY => "window-y"@,
        Key::IsMaximized => "is-maximized"@,
    }
}

/// The key whose name is `s`, if there is one.
pub open spec fn key_named(s: Seq<char>) -> Option<Key> {
    if exists|k: Key| key_name(k) == s {
        Some(choose|k: Key| key_name(k) == s)
    } else {
        None
    }
}

/// Distinct keys have distinct names.
pub proof fn lemma_key_names_distinct(a: Key, b: Key)
    ensures
        key_name(a) == key_name(b) ==> a == b,
{
    reveal_strlit("username");
    reveal_strlit("latest-sync");
    reveal_strlit("window-width");
    reveal_strlit("window-height");
    reveal_strlit("window-x");
    reveal_strlit("window-y");
    reveal_strlit("is-maximized");
    if key_name(a) == key_name(b) && a != b {
        assert(key_name(a).len() == key_name(b).len());
        assert(key_name(a)[0] == key_name(b)[0]);
        assert(key_name(a)[7] == key_name(b)[7]);
    }
}

impl Key {
    /// The name of the key.
    pub fn as_str(&self) -> (r: &'static str)
        ensures
            r@ == key_name(*self),
    {
        match self {
            Key::Username => "username",
            Key::LatestSync => "latest-sync",
            Key::WindowWidth => "window-width",
            Key::WindowHeight => "window-height",
            Key::WindowX => "window-x",
            Key::WindowY => "window-y",
            Key::IsMaximized => "is-maximized",
        }
    }

    /// The name of the key, as an owned string.
    pub fn to_string(&self) -> (r: String)
        ensures
            r@ == key_name(*self),
    {
        String::from_str(self.as_str())
    }

    /// The key with the given name, if there is one.
    pub fn parse(s: &str) -> (r: Option<Key>)
        ensures
            r == key_named(s@),
    {
        let keys = [
            Key::Username,
            Key::LatestSync,
            Key::WindowWidth,
            Key::WindowHeight,
            Key::WindowX,
            Key::WindowY,
            Key::IsMaximized,
        ];
        for i in 0..7
            invariant
                keys@ == seq![
                    Key::Username,
                    Key::LatestSync,
                    Key::WindowWidth,
                    Key::WindowHeight,
                    Key::WindowX,
                    Key::WindowY,
                    Key::IsMaximized,
                ],
                forall|j: int| 0 <= j < i ==> key_name(#[trigger] keys@[j]) != s@,
        {
            if same_text(keys[i].as_str(), s) {
                proof {
                    let c = choose|k: Key| key_name(k) == s@;
                    lemma_key_names_distinct(c, keys@[i as int]);
                }
                return Some(keys[i]);
            }
        }
        assert forall|k: Key| key_name(k) != s@ by {
            match k {
                Key::Username => assert(key_name(keys@[0]) != s@),
                Key::LatestSync => assert(key_name(keys@[1]) != s@),
                Key::WindowWidth => assert(key_name(keys@[2]) != s@),
                Key::WindowHeight => assert(key_name(keys@[3]) != s@),
                Key::WindowX => assert(key_name(keys@[4]) != s@),
                Key::WindowY => assert(key_name(keys@[5]) != s@),
                Key::IsMaximized => assert(key_name(keys@[6]) != s@),
            }
        }
        None
    }
}

/// Parsing the name of a key gives the key back.
pub proof fn lemma_parse_name(k: Key)
    ensures
        key_named(key_name(k)) == Some(k),
{
    let c = choose|q: Key| key_name(q) == key_name(k);
    lemma_key_names_distinct(c, k);
}

} // verus!
