//! What happens to a layout between its file and the form: the placeholders
//! of the file are filled in, and the window gets its title and its icon.

use crate::cli::{patterns_view, Pattern, PatternView};
use crate::custom_dialog::CustomDialog;
use vstd::prelude::*;

verus! {

/// The placeholder for `key`: the key between two pairs of underscores.
pub open spec fn token(key: Seq<char>) -> Seq<char> {
    "__"@ + key + "__"@
}

/// Whether `text` begins with the characters of `token`.
pub open spec fn starts_with(text: Seq<char>, token: Seq<char>) -> bool {
    token.len() <= text.len() && text.take(token.len() as int) == token
}

/// `text` with `value` in the place of `token`, wherever the token stands:
/// the text is read from left to right, a token that is found is left out
/// and `value` put in as it is, and reading goes on behind the token. A token
/// without characters stands nowhere.
pub open spec fn replaced(text: Seq<char>, token: Seq<char>, value: Seq<char>) -> Seq<char>
    decreases text.len(),
{
    if token.len() == 0 || text.len() == 0 {
        text
    } else if starts_with(text, token) {
        value + replaced(text.skip(token.len() as int), token, value)
    } else {
        seq![text[0]] + replaced(text.skip(1), token, value)
    }
}

/// `data` after the patterns were applied one after the other, the first
/// pattern first: each puts its value in the place of its placeholder.
pub open spec fn substituted(patterns: Seq<PatternView>, data: Seq<char>) -> Seq<char>
    decreases patterns.len(),
{
    if patterns.len() == 0 {
        data
    } else {
        replaced(
            substituted(patterns.drop_last(), data),
            token(patterns.last().key),
            patterns.last().value,
        )
    }
}

/// The title of a window whose layout names none.
pub open spec fn default_title() -> Seq<char> {
    "Title"@
}

/// Writes the placeholder for `key`.
pub fn placeholder(key: &str) -> (written: String)
    ensures
        written@ == token(key@),
{
    let mut written = "__".to_string();
    written.append(key);
    written.append("__");
    written
}

/// The characters of `text`, one by one.
fn characters(text: &str) -> (chars: Vec<char>)
    ensures
        chars@ == text@,
{
    let mut chars: Vec<char> = Vec::new();
    for c in it: text.chars()
        invariant
            it.seq() == text@,
            chars@ == text@.take(it.index() as int),
    {
        chars.push(c);
        assert(text@.take(it.index() + 1) == text@.take(it.index() as int).push(c));
    }
    assert(text@.take(text@.len() as int) == text@);
    chars
}

/// Whether `token` stands in `text` at the place `at`.
fn stands_at(text: &Vec<char>, at: usize, token: &Vec<char>) -> (found: bool)
    requires
        at <= text.len(),
    ensures
        found == starts_with(text@.skip(at as int), token@),
{
    if token.len() > text.len() - at {
        return false;
    }
    let ghost rest = text@.skip(at as int);
    let mut k: usize = 0;
    while k < token.len()
        invariant
            k <= token.len(),
            at + token.len() <= text.len(),
            rest == text@.skip(at as int),
            forall|j: int| 0 <= j < k ==> text@[at + j] == token@[j],
        decreases token.len() - k,
    {
        if text[at + k] != token[k] {
            assert(rest.take(token@.len() as int)[k as int] != token@[k as int]);
            return false;
        }
        k = k + 1;
    }
    assert(rest.take(token@.len() as int) =~= token@);
    true
}

/// Puts `replace_with` in the place of `target`, wherever it stands in
/// `text`. The target is looked for character by character and the
/// replacement is put in as it is.
pub fn replace(target: &str, replace_with: &str, text: &str) -> (done: String)
    ensures
        done@ == replaced(text@, target@, replace_with@),
{
    let token = characters(target);
    if token.len() == 0 {
        return text.to_string();
    }
    let chars = characters(text);
    let mut done = String::new();
    let mut at: usize = 0;
    assert(text@.skip(0) == text@);
    while at < chars.len()
        invariant
            at <= chars.len(),
            chars@ == text@,
            token@ == target@,
            token@.len() > 0,
            done@ + replaced(text@.skip(at as int), target@, replace_with@) == replaced(
                text@,
                target@,
                replace_with@,
            ),
        decreases chars.len() - at,
    {
        let ghost rest = text@.skip(at as int);
        let ghost before = done@;
        if stands_at(&chars, at, &token) {
            done.append(replace_with);
            at = at + token.len();
            proof {
                assert(rest.skip(target@.len() as int) == text@.skip(at as int));
                assert(done@ + replaced(text@.skip(at as int), target@, replace_with@) == before
                    + (replace_with@ + replaced(text@.skip(at as int), target@, replace_with@)));
            }
        } else {
            done.push(chars[at]);
            at = at + 1;
            proof {
                assert(rest.skip(1) == text@.skip(at as int));
                assert(done@ + replaced(text@.skip(at as int), target@, replace_with@) == before
                    + (seq![rest[0]] + replaced(text@.skip(at as int), target@, replace_with@)));
            }
        }
    }
    assert(done@ + Seq::<char>::empty() == done@);
    done
}

/// Fills in the placeholders of a layout: the patterns are applied one after
/// the other, each to the text that the one before it left.
pub fn substitute(patterns: &Vec<Pattern>, data: String) -> (text: String)
    ensures
        text@ == substituted(patterns_view(patterns@), data@),
{
    let mut text = data;
    let ghost all = patterns_view(patterns@);
    let mut i: usize = 0;
    while i < patterns.len()
        invariant
            i <= patterns.len(),
            all == patterns_view(patterns@),
            text@ == substituted(all.take(i as int), data@),
        decreases patterns.len() - i,
    {
        proof {
            let seen = all.take(i + 1);
            assert(seen.drop_last() == all.take(i as int));
            assert(seen.last() == patterns@[i as int]@);
        }
        let target = placeholder(patterns[i].key.as_str());
        text = replace(target.as_str(), patterns[i].value.as_str(), text.as_str());
        i = i + 1;
    }
    assert(all.take(i as int) == all);
    text
}

impl CustomDialog {
    /// The title of the window: the one that the layout names, or `Title`.
    pub fn window_title(&self) -> (title: String)
        ensures
            title@ == (match self.title {
                Some(named) => named@,
                None => default_title(),
            }),
    {
        match &self.title {
            Some(named) => named.clone(),
            None => "Title".to_string(),
        }
    }

    /// The icon of the window: the one that the layout names goes before
    /// the one that the command line names.
    pub fn window_icon(&self, arg_icon_path: Option<String>) -> (icon: Option<String>)
        ensures
            match self.icon_path {
                Some(named) => icon matches Some(path) && path@ == named@,
                None => icon == arg_icon_path,
            },
    {
        match &self.icon_path {
            Some(named) => Some(named.clone()),
            None => arg_icon_path,
        }
    }

    /// Whether the window has the decorations of the window manager.
    pub fn decorated(&self) -> (decorated: bool)
        ensures
            decorated == !self.borderless,
    {
        !self.borderless
    }
}

} // verus!
