use vstd::prelude::*;
use vstd::string::*;
use crate::text::str_eq;

verus! {

/// `parent/name` as text: an empty side contributes nothing and no separator.
pub open spec fn join_spec(parent: Seq<char>, name: Seq<char>) -> Seq<char> {
    if parent.len() == 0 {
        name
    } else if name.len() == 0 {
        parent
    } else {
        parent + seq!['/'] + name
    }
}

/// A store-relative path in normal form: `"."` stands for the root, written empty.
pub open spec fn normalize_spec(p: Seq<char>) -> Seq<char> {
    if p =~= seq!['.'] {
        Seq::empty()
    } else {
        p
    }
}

/// The store-relative path of the object `name` under `parent`.
pub open spec fn relative_path_spec(parent: Seq<char>, name: Seq<char>) -> Seq<char> {
    normalize_spec(join_spec(parent, name))
}

/// The display name: the relative path behind a leading `/`.
pub open spec fn display_name_spec(parent: Seq<char>, name: Seq<char>) -> Seq<char> {
    seq!['/'] + relative_path_spec(parent, name)
}

/// The identity of a store object.
#[derive(Debug)]
pub struct Object {
    pub root_directory: String,
    pub object_name: String,
    pub parent_path: String,
    pub relative_path: String,
    pub relative_name: String,
    pub name: String,
}

impl Object {
    /// The identity fields agree with one another.
    pub open spec fn wf(&self) -> bool {
        &&& self.relative_path@ == relative_path_spec(self.parent_path@, self.object_name@)
        &&& self.relative_name@ == self.relative_path@
        &&& self.name@ == display_name_spec(self.parent_path@, self.object_name@)
    }

    /// Whether the identity fields agree with one another.
    pub fn is_well_formed(&self) -> (r: bool)
        ensures
            r == self.wf(),
    {
        let expected = Object::new(
            self.root_directory.as_str(),
            self.parent_path.as_str(),
            self.object_name.as_str(),
        );
        str_eq(self.relative_path.as_str(), expected.relative_path.as_str())
            && str_eq(self.relative_name.as_str(), expected.relative_path.as_str())
            && str_eq(self.name.as_str(), expected.name.as_str())
    }

    /// Resolves the identity of `object_name` under `parent_path` in the store at
    /// `root_directory`; touches no filesystem.
    pub fn new(root_directory: &str, parent_path: &str, object_name: &str) -> (r: Object)
        ensures
            r.wf(),
            r.root_directory@ == root_directory@,
            r.parent_path@ == parent_path@,
            r.object_name@ == object_name@,
            r.relative_path@ == relative_path_spec(parent_path@, object_name@),
            r.name@ == display_name_spec(parent_path@, object_name@),
    {
        let relative_path = join_path(parent_path, object_name);
        let relative_path = normalize_path(relative_path);
        let mut name = String::from_str("/");
        proof {
            reveal_strlit("/");
        }
        name.append(relative_path.as_str());
        let relative_name = relative_path.clone();
        let r = Object {
            root_directory: String::from_str(root_directory),
            object_name: String::from_str(object_name),
            parent_path: String::from_str(parent_path),
            relative_path,
            relative_name,
            name,
        };
        assert(r.relative_name@ == r.relative_path@);
        assert(r.relative_path@ == relative_path_spec(r.parent_path@, r.object_name@));
        assert(r.name@ == display_name_spec(r.parent_path@, r.object_name@));
        assert(r.wf());
        r
    }
}

/// Joins a parent path and a child name with one separator.
pub fn join_path(parent: &str, name: &str) -> (r: String)
    ensures
        r@ == join_spec(parent@, name@),
{
    if parent.unicode_len() == 0 {
        String::from_str(name)
    } else if name.unicode_len() == 0 {
        String::from_str(parent)
    } else {
        let mut r = String::from_str(parent);
        proof {
            reveal_strlit("/");
        }
        r.append("/");
        r.append(name);
        r
    }
}

/// Brings a store-relative path into normal form.
pub fn normalize_path(p: String) -> (r: String)
    ensures
        r@ == normalize_spec(p@),
{
    if p.as_str().unicode_len() == 1 && p.as_str().get_char(0) == '.' {
        assert(p@ =~= seq!['.']);
        String::new()
    } else {
        assert(!(p@ =~= seq!['.'])) by {
            if p@ =~= seq!['.'] {
                assert(p@.len() == 1 && p@[0] == '.');
            }
        }
        p
    }
}

} // verus!
