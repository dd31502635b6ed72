use vstd::prelude::*;
use vstd::string::*;
use crate::layout::{EXDIR_METANAME, TYPE_METANAME, VERSION_METANAME};
use crate::text::str_eq;

verus! {

/// The kind of a store object, fixed when it is created.
#[derive(Debug, Clone, Copy, PartialEq, Eq, Structural)]
pub enum ObjectType {
    Dataset,
    Group,
    File,
}

/// The name under which an object type is written in an envelope.
pub open spec fn kind_name_spec(t: ObjectType) -> Seq<char> {
    match t {
        ObjectType::Dataset => seq!['d', 'a', 't', 'a', 's', 'e', 't'],
        ObjectType::Group => seq!['g', 'r', 'o', 'u', 'p'],
        ObjectType::File => seq!['f', 'i', 'l', 'e'],
    }
}

/// The object type written under `name`, if any.
pub open spec fn type_from_name_spec(name: Seq<char>) -> Option<ObjectType> {
    if name == kind_name_spec(ObjectType::Dataset) {
        Some(ObjectType::Dataset)
    } else if name == kind_name_spec(ObjectType::Group) {
        Some(ObjectType::Group)
    } else if name == kind_name_spec(ObjectType::File) {
        Some(ObjectType::File)
    } else {
        None
    }
}

/// The current schema version of each object type.
pub open spec fn current_version_spec(t: ObjectType) -> u8 {
    match t {
        ObjectType::Dataset => 1,
        ObjectType::Group => 1,
        ObjectType::File => 1,
    }
}

impl ObjectType {
    /// The name of this type as written in an envelope.
    pub fn kind_name(&self) -> (r: &'static str)
        ensures
            r@ == kind_name_spec(*self),
    {
        match self {
            ObjectType::Dataset => {
                proof {
                    reveal_strlit("dataset");
                }
                "dataset"
            },
            ObjectType::Group => {
                proof {
                    reveal_strlit("group");
                }
                "group"
            },
            ObjectType::File => {
                proof {
                    reveal_strlit("file");
                }
                "file"
            },
        }
    }

    /// Reads a type name back; `None` for a name of no type.
    pub fn from_name(name: &str) -> (r: Option<ObjectType>)
        ensures
            r == type_from_name_spec(name@),
    {
        if str_eq(name, ObjectType::Dataset.kind_name()) {
            Some(ObjectType::Dataset)
        } else if str_eq(name, ObjectType::Group.kind_name()) {
            Some(ObjectType::Group)
        } else if str_eq(name, ObjectType::File.kind_name()) {
            Some(ObjectType::File)
        } else {
            None
        }
    }

    /// The current schema version of this type.
    pub fn current_version(&self) -> (r: u8)
        ensures
            r == current_version_spec(*self),
    {
        match self {
            ObjectType::Dataset => 1,
            ObjectType::Group => 1,
            ObjectType::File => 1,
        }
    }
}

/// The body of an envelope: the object's type and its schema version.
#[derive(Debug, Clone, Copy, PartialEq, Eq, Structural)]
pub struct InnerMetadata {
    pub objtype: ObjectType,
    pub version: u8,
}

/// The envelope that marks a directory as a managed, typed store object.
#[derive(Debug, Clone, Copy, PartialEq, Eq, Structural)]
pub struct Metadata {
    pub exdir: InnerMetadata,
}

/// The envelope written for a new object of type `t`.
pub open spec fn new_envelope_spec(t: ObjectType) -> Metadata {
    Metadata { exdir: InnerMetadata { objtype: t, version: current_version_spec(t) } }
}

/// The envelope that a type name and version denote, if they name a type and
/// its current schema.
pub open spec fn envelope_from_fields_spec(kind_name: Seq<char>, version: u64) -> Option<Metadata> {
    match type_from_name_spec(kind_name) {
        Some(t) => if version == current_version_spec(t) as u64 {
            Some(new_envelope_spec(t))
        } else {
            None
        },
        None => None,
    }
}

/// The YAML text that serde_yaml renders for `{outer: {k1: v1, k2: v2}}`, or
/// `None` where its serialiser reports an error.
pub uninterp spec fn yaml_nested_text(
    outer: Seq<char>,
    k1: Seq<char>,
    v1: Seq<char>,
    k2: Seq<char>,
    v2: u8,
) -> Option<Seq<char>>;

/// The string under `outer.k1` and the unsigned integer under `outer.k2` that
/// serde_yaml reads from `text`, if it parses and both are present. The name
/// stands for the whole chain of serde_yaml calls that does this reading:
/// `from_str` into a `Value`, `Value::get` for each key, then `Value::as_str`
/// and `Value::as_u64`.
pub uninterp spec fn yaml_nested_fields(
    text: Seq<char>,
    outer: Seq<char>,
    k1: Seq<char>,
    k2: Seq<char>,
) -> Option<(Seq<char>, u64)>;

/// Relies on serde_yaml::to_string to render a two-level mapping; its error
/// becomes `None`.
#[verifier::external_body]
fn emit_nested_yaml(outer: &str, k1: &str, v1: &str, k2: &str, v2: u8) -> (r: Option<String>)
    ensures
        match r {
            Some(t) => yaml_nested_text(outer@, k1@, v1@, k2@, v2) == Some(t@),
            None => yaml_nested_text(outer@, k1@, v1@, k2@, v2).is_none(),
        },
{
    let mut inner = serde_yaml::Mapping::new();
    inner.insert(serde_yaml::Value::from(k1), serde_yaml::Value::from(v1));
    inner.insert(serde_yaml::Value::from(k2), serde_yaml::Value::from(v2));
    let mut doc = serde_yaml::Mapping::new();
    doc.insert(serde_yaml::Value::from(outer), serde_yaml::Value::from(inner));
    serde_yaml::to_string(&doc).ok()
}

/// Relies on serde_yaml::from_str, Value::get, Value::as_str and Value::as_u64
/// to read `outer.k1` as a string and `outer.k2` as an unsigned integer.
#[verifier::external_body]
fn read_nested_yaml(text: &str, outer: &str, k1: &str, k2: &str) -> (r: Option<(String, u64)>)
    ensures
        match r {
            Some(p) => yaml_nested_fields(text@, outer@, k1@, k2@) == Some((p.0@, p.1)),
            None => yaml_nested_fields(text@, outer@, k1@, k2@).is_none(),
        },
{
    let doc: serde_yaml::Value = serde_yaml::from_str(text).ok()?;
    let inner = doc.get(outer)?;
    let v1 = inner.get(k1)?.as_str()?;
    let v2 = inner.get(k2)?.as_u64()?;
    Some((v1.to_string(), v2))
}

/// The envelope text for `m`, as serde_yaml renders it; `None` where the
/// serialiser fails.
pub open spec fn envelope_text_spec(m: Metadata) -> Option<Seq<char>> {
    yaml_nested_text(
        EXDIR_METANAME@,
        TYPE_METANAME@,
        kind_name_spec(m.exdir.objtype),
        VERSION_METANAME@,
        m.exdir.version,
    )
}

/// The envelope that `text` holds, if serde_yaml reads the two fields from it
/// and they denote a known type at its current schema.
pub open spec fn envelope_of_text_spec(text: Seq<char>) -> Option<Metadata> {
    match yaml_nested_fields(text, EXDIR_METANAME@, TYPE_METANAME@, VERSION_METANAME@) {
        Some(p) => envelope_from_fields_spec(p.0, p.1),
        None => None,
    }
}

impl Metadata {
    /// The envelope of a new object of type `objtype`, at its current schema.
    pub fn new(objtype: ObjectType) -> (r: Metadata)
        ensures
            r == new_envelope_spec(objtype),
    {
        Metadata { exdir: InnerMetadata { objtype, version: objtype.current_version() } }
    }

    /// Reads an envelope from its two fields: `Some` exactly when `kind_name`
    /// names a type and `version` is that type's current schema version.
    pub fn from_fields(kind_name: &str, version: u64) -> (r: Option<Metadata>)
        ensures
            r == envelope_from_fields_spec(kind_name@, version),
    {
        match ObjectType::from_name(kind_name) {
            Some(t) => if version == t.current_version() as u64 {
                Some(Metadata::new(t))
            } else {
                None
            },
            None => None,
        }
    }

    /// Renders the envelope as YAML; `None` if the serialiser fails.
    pub fn to_yaml(&self) -> (r: Option<String>)
        ensures
            match r {
                Some(t) => envelope_text_spec(*self) == Some(t@),
                None => envelope_text_spec(*self).is_none(),
            },
    {
        emit_nested_yaml(
            EXDIR_METANAME,
            TYPE_METANAME,
            self.exdir.objtype.kind_name(),
            VERSION_METANAME,
            self.exdir.version,
        )
    }

    /// Reads an envelope from YAML text; `None` where the text does not parse,
    /// lacks a field, or names no known type at its current schema.
    pub fn from_yaml(text: &str) -> (r: Option<Metadata>)
        ensures
            r == envelope_of_text_spec(text@),
    {
        match read_nested_yaml(text, EXDIR_METANAME, TYPE_METANAME, VERSION_METANAME) {
            Some(p) => Metadata::from_fields(p.0.as_str(), p.1),
            None => None,
        }
    }
}

impl Default for Metadata {
    /// The envelope of a new dataset.
    fn default() -> (r: Metadata)
        ensures
            r == new_envelope_spec(ObjectType::Dataset),
    {
        Metadata::new(ObjectType::Dataset)
    }
}

/// An envelope written for type `t` reads back, from its fields, as type `t`
/// at the current schema version of `t`.
pub proof fn lemma_envelope_round_trip(t: ObjectType)
    ensures
        envelope_from_fields_spec(
            kind_name_spec(new_envelope_spec(t).exdir.objtype),
            new_envelope_spec(t).exdir.version as u64,
        ) == Some(new_envelope_spec(t)),
        new_envelope_spec(t).exdir.objtype == t,
        new_envelope_spec(t).exdir.version == current_version_spec(t),
{
    assert(kind_name_spec(ObjectType::Dataset) != kind_name_spec(ObjectType::Group)) by {
        assert(kind_name_spec(ObjectType::Dataset).len() != kind_name_spec(ObjectType::Group).len());
    }
    assert(kind_name_spec(ObjectType::Dataset) != kind_name_spec(ObjectType::File)) by {
        assert(kind_name_spec(ObjectType::Dataset).len() != kind_name_spec(ObjectType::File).len());
    }
    assert(kind_name_spec(ObjectType::Group) != kind_name_spec(ObjectType::File)) by {
        assert(kind_name_spec(ObjectType::Group).len() != kind_name_spec(ObjectType::File).len());
    }
}

} // verus!
