use vstd::prelude::*;

verus! {

/// The key of the envelope's outer mapping.
pub const EXDIR_METANAME: &'static str = "exdir";
/// The key under which the envelope names its object type.
pub const TYPE_METANAME: &'static str = "type";
/// The key under which the envelope holds its schema version.
pub const VERSION_METANAME: &'static str = "version";

/// The file at an object directory's root that marks it as managed.
pub const META_FILENAME: &'static str = "exdir.yaml";
/// The optional key-value metadata file of an object.
pub const ATTRIBUTES_FILENAME: &'static str = "attributes.yaml";
/// The reserved folder for unmanaged payload files.
pub const RAW_FOLDER_NAME: &'static str = "__raw__";
/// The extension of a store's root directory.
pub const STORE_EXTENSION: &'static str = ".exdir";

/// The metadata file, the attributes file and the raw folder are three
/// different entries of an object directory.
pub proof fn lemma_reserved_names_distinct()
    ensures
        META_FILENAME@ != ATTRIBUTES_FILENAME@,
        META_FILENAME@ != RAW_FOLDER_NAME@,
        ATTRIBUTES_FILENAME@ != RAW_FOLDER_NAME@,
{
    reveal_strlit("exdir.yaml");
    reveal_strlit("attributes.yaml");
    reveal_strlit("__raw__");
    assert(META_FILENAME@.len() != ATTRIBUTES_FILENAME@.len());
    assert(META_FILENAME@.len() != RAW_FOLDER_NAME@.len());
    assert(ATTRIBUTES_FILENAME@.len() != RAW_FOLDER_NAME@.len());
}

} // verus!
