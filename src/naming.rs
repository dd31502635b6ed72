use vstd::prelude::*;
use vstd::string::*;
use crate::error::ExdirError;
use crate::layout::RAW_FOLDER_NAME;
use crate::text::str_eq;

verus! {

/// The longest object name that `Thorough` accepts: the shortest path-segment
/// limit among common host filesystems.
pub const MAX_NAME_LENGTH: usize = 255;

/// How strictly a store checks the names of new objects.
#[derive(Debug, Clone, Copy, PartialEq, Eq, Structural)]
pub enum NamingRule {
    /// ASCII letters, digits and underscore, non-empty, not the raw folder's name.
    Simple,
    /// `Simple`, and no sibling whose name differs only in letter case.
    Strict,
    /// `Strict`, and at most `MAX_NAME_LENGTH` characters; `Simple`'s alphabet
    /// already leaves out every character that common filesystems forbid.
    Thorough,
    /// No checks.
    Unchecked,
}

pub open spec fn is_upper_spec(c: char) -> bool {
    'A' <= c && c <= 'Z'
}

pub open spec fn is_name_char_spec(c: char) -> bool {
    ('a' <= c && c <= 'z') || is_upper_spec(c) || ('0' <= c && c <= '9') || c == '_'
}

/// Equal up to ASCII letter case.
pub open spec fn fold_eq_spec(a: char, b: char) -> bool {
    a == b || (is_upper_spec(a) && b as u32 == a as u32 + 32) || (is_upper_spec(b) && a as u32
        == b as u32 + 32)
}

/// `a` and `b` are different names that differ only in ASCII letter case.
pub open spec fn case_collision_spec(a: Seq<char>, b: Seq<char>) -> bool {
    &&& a != b
    &&& a.len() == b.len()
    &&& forall|i: int| 0 <= i < a.len() ==> fold_eq_spec(#[trigger] a[i], b[i])
}

pub open spec fn simple_ok_spec(name: Seq<char>) -> bool {
    &&& name.len() > 0
    &&& forall|i: int| 0 <= i < name.len() ==> is_name_char_spec(#[trigger] name[i])
    &&& name != RAW_FOLDER_NAME@
}

pub open spec fn strict_ok_spec(name: Seq<char>, siblings: Seq<Seq<char>>) -> bool {
    &&& simple_ok_spec(name)
    &&& forall|j: int| 0 <= j < siblings.len() ==> !case_collision_spec(name, #[trigger] siblings[j])
}

/// Whether `rule` accepts `name` beside existing entries `siblings`.
pub open spec fn name_ok_spec(rule: NamingRule, name: Seq<char>, siblings: Seq<Seq<char>>) -> bool {
    match rule {
        NamingRule::Simple => simple_ok_spec(name),
        NamingRule::Strict => strict_ok_spec(name, siblings),
        NamingRule::Thorough => strict_ok_spec(name, siblings) && name.len() <= MAX_NAME_LENGTH,
        NamingRule::Unchecked => true,
    }
}

fn is_name_char(c: char) -> (r: bool)
    ensures
        r == is_name_char_spec(c),
{
    ('a' <= c && c <= 'z') || ('A' <= c && c <= 'Z') || ('0' <= c && c <= '9') || c == '_'
}

fn fold_eq(a: char, b: char) -> (r: bool)
    ensures
        r == fold_eq_spec(a, b),
{
    a == b || ('A' <= a && a <= 'Z' && b as u32 == a as u32 + 32) || ('A' <= b && b <= 'Z' && a
        as u32 == b as u32 + 32)
}

/// Whether `a` and `b` are different names that differ only in letter case.
pub fn case_collision(a: &str, b: &str) -> (r: bool)
    ensures
        r == case_collision_spec(a@, b@),
{
    let n = a.unicode_len();
    if n != b.unicode_len() || str_eq(a, b) {
        return false;
    }
    let mut i: usize = 0;
    while i < n
        invariant
            n == a@.len(),
            n == b@.len(),
            i <= n,
            forall|j: int| 0 <= j < i ==> fold_eq_spec(#[trigger] a@[j], b@[j]),
        decreases n - i,
    {
        if !fold_eq(a.get_char(i), b.get_char(i)) {
            return false;
        }
        i = i + 1;
    }
    true
}

fn simple_ok(name: &str) -> (r: bool)
    ensures
        r == simple_ok_spec(name@),
{
    let n = name.unicode_len();
    if n == 0 {
        return false;
    }
    let mut i: usize = 0;
    while i < n
        invariant
            n == name@.len(),
            i <= n,
            forall|j: int| 0 <= j < i ==> is_name_char_spec(#[trigger] name@[j]),
        decreases n - i,
    {
        if !is_name_char(name.get_char(i)) {
            return false;
        }
        i = i + 1;
    }
    !str_eq(name, RAW_FOLDER_NAME)
}

fn strict_ok(name: &str, siblings: &Vec<String>) -> (r: bool)
    ensures
        r == strict_ok_spec(name@, siblings.deep_view()),
{
    if !simple_ok(name) {
        return false;
    }
    let mut j: usize = 0;
    while j < siblings.len()
        invariant
            j <= siblings@.len(),
            forall|k: int| 0 <= k < j ==> !case_collision_spec(name@, #[trigger] siblings.deep_view()[k]),
        decreases siblings@.len() - j,
    {
        if case_collision(name, siblings[j].as_str()) {
            assert(siblings.deep_view()[j as int] == siblings@[j as int]@);
            return false;
        }
        assert(siblings.deep_view()[j as int] == siblings@[j as int]@);
        j = j + 1;
    }
    true
}

/// Checks `name` under `rule` before anything is created: `InvalidArgument`
/// exactly when the rule rejects it.
pub fn validate_name(rule: NamingRule, name: &str, siblings: &Vec<String>) -> (r: Result<(), ExdirError>)
    ensures
        r is Ok <==> name_ok_spec(rule, name@, siblings.deep_view()),
        r matches Err(e) ==> e == ExdirError::InvalidArgument,
{
    let ok = match rule {
        NamingRule::Simple => simple_ok(name),
        NamingRule::Strict => strict_ok(name, siblings),
        NamingRule::Thorough => strict_ok(name, siblings) && name.unicode_len() <= MAX_NAME_LENGTH,
        NamingRule::Unchecked => true,
    };
    if ok {
        Ok(())
    } else {
        Err(ExdirError::InvalidArgument)
    }
}

} // verus!
