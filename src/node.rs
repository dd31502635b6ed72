use vstd::prelude::*;
use vstd::string::*;
use crate::envelope::{envelope_of_text_spec, envelope_text_spec, new_envelope_spec, Metadata, ObjectType};
use crate::error::ExdirError;
use crate::layout::STORE_EXTENSION;
use crate::mode::{mode_token_spec, state_after_spec, open_plan, open_plan_spec, store_state, store_state_spec, ModeToken, OpenMode, OpenPlan, StoreState};
use crate::naming::{name_ok_spec, validate_name, NamingRule};
use crate::object::{relative_path_spec, Object};
use crate::text::{ends_with, ends_with_spec, str_eq};

verus! {

/// The directory of the store at `path`: the path itself if it already ends in
/// the store extension, else the path with the extension appended.
pub open spec fn store_directory_spec(path: Seq<char>) -> Seq<char> {
    if ends_with_spec(path, STORE_EXTENSION@) {
        path
    } else {
        path + STORE_EXTENSION@
    }
}

/// The store directory for a user-given path.
pub fn store_directory(path: &str) -> (r: String)
    ensures
        r@ == store_directory_spec(path@),
{
    let mut r = String::from_str(path);
    if !ends_with(path, STORE_EXTENSION) {
        r.append(STORE_EXTENSION);
    }
    r
}

/// The envelope type that `meta_text` reads as, if any.
pub open spec fn envelope_type_spec(meta_text: Option<Seq<char>>) -> Option<ObjectType> {
    match meta_text {
        Some(t) => match envelope_of_text_spec(t) {
            Some(m) => Some(m.exdir.objtype),
            None => None,
        },
        None => None,
    }
}

/// Whether a directory whose metadata file holds `meta_text` (`None`: no such
/// file) is a managed object directory rather than an unmanaged raw folder.
pub fn is_nonraw_object_directory(meta_text: Option<&str>) -> (r: bool)
    ensures
        r == (meta_text matches Some(t) && envelope_of_text_spec(t@) is Some),
{
    match meta_text {
        Some(t) => Metadata::from_yaml(t).is_some(),
        None => false,
    }
}

/// Classifies a store's path from whether it exists and the text of its
/// metadata file (`None`: no such file).
pub fn inspect_store(exists: bool, meta_text: Option<&str>) -> (r: StoreState)
    ensures
        r == store_state_spec(
            exists,
            envelope_type_spec(
                match meta_text {
                    Some(t) => Some(t@),
                    None => None,
                },
            ),
        ),
{
    let t = match meta_text {
        Some(t) => match Metadata::from_yaml(t) {
            Some(m) => Some(m.exdir.objtype),
            None => None,
        },
        None => None,
    };
    store_state(exists, t)
}

/// The envelope text to write into a new object directory of type `objtype`:
/// `AlreadyExists` if the directory is already there, `IoFailure` if the
/// serialiser fails.
pub fn create_object_directory(already_exists: bool, objtype: ObjectType) -> (r: Result<String, ExdirError>)
    ensures
        already_exists ==> r == Err::<String, ExdirError>(ExdirError::AlreadyExists),
        !already_exists ==> match envelope_text_spec(new_envelope_spec(objtype)) {
            Some(text) => r matches Ok(t) && t@ == text,
            None => r == Err::<String, ExdirError>(ExdirError::IoFailure),
        },
{
    if already_exists {
        return Err(ExdirError::AlreadyExists);
    }
    match Metadata::new(objtype).to_yaml() {
        Some(t) => Ok(t),
        None => Err(ExdirError::IoFailure),
    }
}

/// Why creating `name` beside `siblings` under `rule` fails, if it does: a
/// rejected name first, then a name that any sibling entry already holds.
pub open spec fn child_error_spec(rule: NamingRule, name: Seq<char>, siblings: Seq<Seq<char>>) -> Option<ExdirError> {
    if !name_ok_spec(rule, name, siblings) {
        Some(ExdirError::InvalidArgument)
    } else if siblings.contains(name) {
        Some(ExdirError::AlreadyExists)
    } else {
        None
    }
}

/// `child` is the identity of `name` directly under `parent`.
pub open spec fn child_of_spec(parent: Object, name: Seq<char>, child: Object) -> bool {
    &&& child.wf()
    &&& child.root_directory@ == parent.root_directory@
    &&& child.parent_path@ == parent.relative_path@
    &&& child.object_name@ == name
    &&& child.relative_path@ == relative_path_spec(parent.relative_path@, name)
}

/// What creating a child of `parent` returns: the error of `child_error_spec`,
/// or the child's identity.
pub open spec fn child_result_spec(
    parent: Object,
    rule: NamingRule,
    name: Seq<char>,
    siblings: Seq<Seq<char>>,
    r: Result<Object, ExdirError>,
) -> bool {
    match child_error_spec(rule, name, siblings) {
        Some(e) => r == Err::<Object, ExdirError>(e),
        None => r matches Ok(c) && child_of_spec(parent, name, c),
    }
}

fn contains_name(siblings: &Vec<String>, name: &str) -> (r: bool)
    ensures
        r == siblings.deep_view().contains(name@),
{
    let mut j: usize = 0;
    while j < siblings.len()
        invariant
            j <= siblings@.len(),
            forall|k: int| 0 <= k < j ==> siblings.deep_view()[k] != name@,
        decreases siblings@.len() - j,
    {
        assert(siblings.deep_view()[j as int] == siblings@[j as int]@);
        if str_eq(siblings[j].as_str(), name) {
            return true;
        }
        j = j + 1;
    }
    false
}

/// Resolves a new child of `parent`: validates `name` under `rule`, rejects a
/// name already held by any entry in `siblings` (groups, datasets and raw
/// entries alike), and returns the child's identity.
pub fn create_child(parent: &Object, rule: NamingRule, name: &str, siblings: &Vec<String>) -> (r: Result<Object, ExdirError>)
    requires
        parent.wf(),
    ensures
        child_result_spec(*parent, rule, name@, siblings.deep_view(), r),
{
    validate_name(rule, name, siblings)?;
    if contains_name(siblings, name) {
        return Err(ExdirError::AlreadyExists);
    }
    Ok(Object::new(parent.root_directory.as_str(), parent.relative_path.as_str(), name))
}

/// Once a child named `name` has been created beside `siblings`, a second
/// creation of the same name fails with `AlreadyExists`, whatever the types of
/// the two objects.
pub proof fn lemma_sibling_names_unique(rule: NamingRule, name: Seq<char>, siblings: Seq<Seq<char>>)
    requires
        child_error_spec(rule, name, siblings) is None,
    ensures
        child_error_spec(rule, name, siblings.push(name)) == Some(ExdirError::AlreadyExists),
{
    let s2 = siblings.push(name);
    assert(s2[siblings.len() as int] == name);
    assert(s2.contains(name));
    if rule == NamingRule::Strict || rule == NamingRule::Thorough {
        assert forall|j: int| 0 <= j < s2.len() implies !crate::naming::case_collision_spec(
            name,
            #[trigger] s2[j],
        ) by {
            if j < siblings.len() {
                assert(s2[j] == siblings[j]);
            }
        }
    }
}

/// The token that an optional mode string requests; no string means `a`.
pub open spec fn requested_token_spec(mode: Option<Seq<char>>) -> Option<ModeToken> {
    match mode {
        Some(m) => mode_token_spec(m),
        None => Some(ModeToken::Append),
    }
}

/// What opening the store at `directory` returns: `InvalidArgument` for an
/// unrecognised token, the mode controller's error, or a handle on the store's
/// root carrying the plan that the caller is to carry out.
pub open spec fn file_open_spec(
    directory: Seq<char>,
    mode: Option<Seq<char>>,
    allow_remove: Option<bool>,
    state: StoreState,
    r: Result<File, ExdirError>,
) -> bool {
    let confirmed = match allow_remove {
        Some(b) => b,
        None => false,
    };
    match requested_token_spec(mode) {
        None => r == Err::<File, ExdirError>(ExdirError::InvalidArgument),
        Some(t) => match open_plan_spec(t, state, confirmed) {
            Err(e) => r == Err::<File, ExdirError>(e),
            Ok(p) => r matches Ok(f) && f.plan == p && f.mode == p.open_mode && f.naming
                == NamingRule::Strict && f.object.wf() && f.object.root_directory@
                == store_directory_spec(directory) && f.object.relative_path@ == Seq::<char>::empty()
                && f.object.name@ == seq!['/'],
        },
    }
}

/// A handle on an open store: its root object, how it is held, and the
/// naming policy for new objects.
#[derive(Debug)]
pub struct File {
    pub object: Object,
    pub mode: OpenMode,
    pub naming: NamingRule,
    /// What the filesystem must undergo for this open to take effect.
    pub plan: OpenPlan,
}

/// A group: a node that holds other objects.
#[derive(Debug)]
pub struct Group {
    pub object: Object,
    pub naming: NamingRule,
}

/// A dataset: a node whose directory also holds an array payload.
#[derive(Debug)]
pub struct Dataset {
    pub object: Object,
    pub naming: NamingRule,
}

impl File {
    /// Opens the store at `directory`, whose current state is `state`, with
    /// `mode` (default `a`); `allow_remove` (default no) confirms that `w` may
    /// destroy an existing store.
    pub fn new(directory: &str, mode: Option<&str>, allow_remove: Option<bool>, state: StoreState) -> (r: Result<File, ExdirError>)
        ensures
            file_open_spec(
                directory@,
                match mode {
                    Some(m) => Some(m@),
                    None => None,
                },
                allow_remove,
                state,
                r,
            ),
    {
        let confirmed = match allow_remove {
            Some(b) => b,
            None => false,
        };
        let token = match mode {
            Some(m) => ModeToken::parse(m),
            None => Some(ModeToken::Append),
        };
        let token = match token {
            Some(t) => t,
            None => return Err(ExdirError::InvalidArgument),
        };
        let plan = open_plan(token, state, confirmed)?;
        let root = store_directory(directory);
        proof {
            reveal_strlit("");
        }
        let object = Object::new(root.as_str(), "", "");
        assert(object.relative_path@ =~= Seq::<char>::empty());
        assert(object.name@ =~= seq!['/']);
        Ok(File { object, mode: plan.open_mode, naming: NamingRule::Strict, plan })
    }

    /// Opens the store at `directory` with mode `a`, creating it if absent.
    pub fn default(directory: &str, state: StoreState) -> (r: File)
        requires
            state != StoreState::Invalid,
        ensures
            file_open_spec(directory@, None, Some(false), state, Ok(r)),
    {
        match File::new(directory, None, Some(false), state) {
            Ok(f) => f,
            Err(_) => vstd::pervasive::unreached(),
        }
    }

    /// Closes the handle.
    pub fn close(&mut self)
        ensures
            final(self).mode == OpenMode::FileClosed,
            final(self).object == old(self).object,
            final(self).naming == old(self).naming,
            final(self).plan == old(self).plan,
    {
        self.mode = OpenMode::FileClosed;
    }
}

/// A node under which groups and datasets can be created. `siblings` lists
/// every entry already in the node's directory.
pub trait HasLeaves {
    spec fn node_object(&self) -> Object;

    spec fn node_naming(&self) -> NamingRule;

    /// The identity of this node.
    fn node(&self) -> (r: &Object)
        ensures
            *r == self.node_object(),
    ;

    /// Resolves a new dataset named `name` under this node.
    fn create_dataset(&self, name: &str, siblings: &Vec<String>) -> (r: Result<Dataset, ExdirError>)
        requires
            self.node_object().wf(),
        ensures
            child_result_spec(
                self.node_object(),
                self.node_naming(),
                name@,
                siblings.deep_view(),
                match r {
                    Ok(d) => Ok(d.object),
                    Err(e) => Err(e),
                },
            ),
            r matches Ok(d) ==> d.naming == self.node_naming(),
    ;

    /// Resolves a new group named `name` under this node.
    fn create_group(&self, name: &str, siblings: &Vec<String>) -> (r: Result<Group, ExdirError>)
        requires
            self.node_object().wf(),
        ensures
            child_result_spec(
                self.node_object(),
                self.node_naming(),
                name@,
                siblings.deep_view(),
                match r {
                    Ok(g) => Ok(g.object),
                    Err(e) => Err(e),
                },
            ),
            r matches Ok(g) ==> g.naming == self.node_naming(),
    ;
}

impl HasLeaves for File {
    open spec fn node_object(&self) -> Object {
        self.object
    }

    open spec fn node_naming(&self) -> NamingRule {
        self.naming
    }

    fn node(&self) -> (r: &Object) {
        &self.object
    }

    fn create_dataset(&self, name: &str, siblings: &Vec<String>) -> (r: Result<Dataset, ExdirError>) {
        let object = create_child(&self.object, self.naming, name, siblings)?;
        Ok(Dataset { object, naming: self.naming })
    }

    fn create_group(&self, name: &str, siblings: &Vec<String>) -> (r: Result<Group, ExdirError>) {
        let object = create_child(&self.object, self.naming, name, siblings)?;
        Ok(Group { object, naming: self.naming })
    }
}

impl HasLeaves for Group {
    open spec fn node_object(&self) -> Object {
        self.object
    }

    open spec fn node_naming(&self) -> NamingRule {
        self.naming
    }

    fn node(&self) -> (r: &Object) {
        &self.object
    }

    fn create_dataset(&self, name: &str, siblings: &Vec<String>) -> (r: Result<Dataset, ExdirError>) {
        let object = create_child(&self.object, self.naming, name, siblings)?;
        Ok(Dataset { object, naming: self.naming })
    }

    fn create_group(&self, name: &str, siblings: &Vec<String>) -> (r: Result<Group, ExdirError>) {
        let object = create_child(&self.object, self.naming, name, siblings)?;
        Ok(Group { object, naming: self.naming })
    }
}

impl HasLeaves for Dataset {
    open spec fn node_object(&self) -> Object {
        self.object
    }

    open spec fn node_naming(&self) -> NamingRule {
        self.naming
    }

    fn node(&self) -> (r: &Object) {
        &self.object
    }

    fn create_dataset(&self, name: &str, siblings: &Vec<String>) -> (r: Result<Dataset, ExdirError>) {
        let object = create_child(&self.object, self.naming, name, siblings)?;
        Ok(Dataset { object, naming: self.naming })
    }

    fn create_group(&self, name: &str, siblings: &Vec<String>) -> (r: Result<Group, ExdirError>) {
        let object = create_child(&self.object, self.naming, name, siblings)?;
        Ok(Group { object, naming: self.naming })
    }
}

/// An absent store cannot be opened with `r`; `w-` then opens it by creating
/// it, and once that is done `r` opens it read-only.
pub proof fn lemma_create_then_read(
    directory: Seq<char>,
    first: Result<File, ExdirError>,
    second: Result<File, ExdirError>,
    third: Result<File, ExdirError>,
)
    requires
        file_open_spec(directory, Some(seq!['r']), None, StoreState::Absent, first),
        file_open_spec(directory, Some(seq!['w', '-']), None, StoreState::Absent, second),
        second matches Ok(f) && file_open_spec(
            directory,
            Some(seq!['r']),
            None,
            state_after_spec(StoreState::Absent, f.plan),
            third,
        ),
    ensures
        first == Err::<File, ExdirError>(ExdirError::NotFound),
        second matches Ok(f) && f.plan.create && !f.plan.remove_existing && f.mode
            == OpenMode::ReadWrite,
        third matches Ok(f) && f.mode == OpenMode::ReadOnly && !f.plan.create
            && !f.plan.remove_existing,
{
}

/// `w` on an existing store without confirmation fails with `AlreadyExists`
/// and plans nothing, so the store stays as it was; with confirmation it
/// removes the store and creates it afresh with a file envelope at version 1.
pub proof fn lemma_write_needs_confirmation(
    directory: Seq<char>,
    unconfirmed: Result<File, ExdirError>,
    confirmed: Result<File, ExdirError>,
)
    requires
        file_open_spec(directory, Some(seq!['w']), Some(false), StoreState::Valid, unconfirmed),
        file_open_spec(directory, Some(seq!['w']), Some(true), StoreState::Valid, confirmed),
    ensures
        unconfirmed == Err::<File, ExdirError>(ExdirError::AlreadyExists),
        confirmed matches Ok(f) && f.plan.remove_existing && f.plan.create && f.mode
            == OpenMode::ReadWrite,
        new_envelope_spec(ObjectType::File).exdir.objtype == ObjectType::File,
        new_envelope_spec(ObjectType::File).exdir.version == 1,
{
    assert(seq!['w'] != seq!['r']) by {
        assert(seq!['w'][0] != seq!['r'][0]);
    }
    assert(seq!['w'] != seq!['r', '+']);
}

} // verus!
