//! Where credentials live: the program's data directory, the `keypairs`
//! directory under it, and one `<name>.json` file for each credential.

use crate::record::KeystoreError;
use std::path::PathBuf;
use vstd::prelude::*;
use vstd::string::{StrSliceExecFns, StringExecFns};

verus! {

/// `std::path::PathBuf`, a path in the form of the platform. It is carried
/// through as it is; `joined` and `parent` name the paths derived from it.
#[verifier::external_type_specification]
#[verifier::external_body]
pub struct ExPathBuf(std::path::PathBuf);

/// The path that `Path::join` gives for a base path and a relative part.
pub uninterp spec fn joined(base: PathBuf, part: Seq<char>) -> PathBuf;

/// The path without its last component, as `Path::parent` gives it: `None` for
/// a root and for the empty path.
pub uninterp spec fn parent(path: PathBuf) -> Option<PathBuf>;

/// `Path::join`: the base path with `part` adjoined. The result depends on the
/// two paths alone; no file system is consulted.
#[verifier::external_body]
fn join(base: &PathBuf, part: &str) -> (path: PathBuf)
    ensures
        path == joined(*base, part@),
{
    base.join(part)
}

/// `Path::parent`: the path up to its last component. The result depends on the
/// path alone; no file system is consulted.
#[verifier::external_body]
pub(crate) fn parent_of(path: &PathBuf) -> (dir: Option<PathBuf>)
    ensures
        dir == parent(*path),
{
    path.parent().map(|dir| dir.to_path_buf())
}

/// `PathBuf::clone`: a copy that is equal to the path.
pub assume_specification[ <PathBuf as Clone>::clone ](path: &PathBuf) -> (copy: PathBuf)
    ensures
        copy == *path,
;

/// The directory is one that a platform assigns to `program` for its data: some
/// base directory with the program's name adjoined, and on Windows the
/// directory `data` under that.
pub open spec fn is_data_dir_of(root: PathBuf, program: Seq<char>) -> bool {
    exists|base: PathBuf|
        #![trigger joined(base, program)]
        root == joined(base, program) || root == joined(joined(base, program), "data"@)
}

/// `directories::ProjectDirs::from_path`, then its `data_dir`: the per-user data
/// directory of a program, `None` where the system names no home directory.
/// Which base directory it lies under depends on the platform and on the
/// environment of the process, so that is left open. On every platform the
/// crate joins the program's name to the base directory; on Windows it then
/// joins `data`.
#[verifier::external_body]
fn project_data_dir(program: &str) -> (found: Option<PathBuf>)
    ensures
        found matches Some(root) ==> is_data_dir_of(root, program@),
{
    directories::ProjectDirs::from_path(PathBuf::from(program)).map(
        |dirs| dirs.data_dir().to_path_buf(),
    )
}

/// The name under which the program stores its data when the build names no
/// binary.
pub open spec fn default_program() -> Seq<char> {
    "dclient"@
}

/// The program's identity: the name of the compiled binary where the build
/// gives one, the default name where it gives none.
pub fn program_identity(compiled: Option<&'static str>) -> (name: &'static str)
    ensures
        name@ == match compiled {
            Some(binary) => binary@,
            None => default_program(),
        },
{
    match compiled {
        Some(binary) => binary,
        None => "dclient",
    }
}

/// The identity of this library's own build, which names no binary: the default
/// name.
pub fn get_bin_name() -> (name: &'static str)
    ensures
        name@ == default_program(),
{
    program_identity(None)
}

/// The name that the data directory is derived from: the binary's name, not the
/// package's, so that renaming the package orphans no credential.
pub fn get_prog_without_ext() -> (name: &'static str)
    ensures
        name@ == default_program(),
{
    get_bin_name()
}

/// The name of the directory that holds the credential files.
pub open spec fn keypairs_dir_name() -> Seq<char> {
    "keypairs"@
}

/// The suffix of a credential file's name.
pub open spec fn file_suffix() -> Seq<char> {
    ".json"@
}

/// The name of the file that stores the credential `name`.
pub open spec fn credential_file_name(name: Seq<char>) -> Seq<char> {
    name + file_suffix()
}

/// The directory of credential files under a data directory.
pub open spec fn keypairs_dir(root: PathBuf) -> PathBuf {
    joined(root, keypairs_dir_name())
}

/// The canonical path of the credential `name` under a data directory.
pub open spec fn credential_path(root: PathBuf, name: Seq<char>) -> PathBuf {
    joined(keypairs_dir(root), credential_file_name(name))
}

/// The credential store of one program: its data directory.
#[derive(Clone, Debug, PartialEq, Eq)]
pub struct Store {
    pub root: PathBuf,
}

impl Store {
    /// The store whose data directory is `root`.
    pub fn at(root: PathBuf) -> (store: Store)
        ensures
            store.root == root,
    {
        Store { root }
    }

    /// The store of `program` in the per-user data directory that the platform
    /// assigns to it; `None` where the system names no home directory. The
    /// root of the store is a data directory of that program and of no other.
    pub fn for_program(program: &str) -> (found: Option<Store>)
        ensures
            found matches Some(store) ==> is_data_dir_of(store.root, program@),
    {
        match project_data_dir(program) {
            Some(root) => Some(Store { root }),
            None => None,
        }
    }

    /// The directory that holds this store's credential files.
    pub fn keypairs_path(&self) -> (dir: PathBuf)
        ensures
            dir == keypairs_dir(self.root),
    {
        join(&self.root, "keypairs")
    }

    /// The canonical path of the credential `file_name`: the file
    /// `<file_name>.json` in the store's `keypairs` directory. Equal names give
    /// equal paths, and no file system is consulted.
    pub fn file_path(&self, file_name: &String) -> (path: PathBuf)
        ensures
            path == credential_path(self.root, file_name@),
    {
        let dir = self.keypairs_path();
        let file = file_name.clone().concat(".json");
        join(&dir, file.as_str())
    }
}

/// The canonical path of the credential `file_name` in the store of this
/// program: the file `<file_name>.json` in the `keypairs` directory under a data
/// directory of `default_program()`. `None` where the system names no home
/// directory.
pub fn get_file_path(file_name: &String) -> (path: Option<PathBuf>)
    ensures
        path matches Some(found) ==> exists|root: PathBuf|
            is_data_dir_of(root, default_program()) && found == credential_path(
                root,
                file_name@,
            ),
{
    match Store::for_program(get_prog_without_ext()) {
        Some(store) => Some(store.file_path(file_name)),
        None => None,
    }
}

/// The directory of credential files in the store of this program: the
/// `keypairs` directory under a data directory of `default_program()`. `None`
/// where the system names no home directory.
pub fn get_keypairs_path() -> (dir: Option<PathBuf>)
    ensures
        dir matches Some(found) ==> exists|root: PathBuf|
            is_data_dir_of(root, default_program()) && found == keypairs_dir(root),
{
    match Store::for_program(get_prog_without_ext()) {
        Some(store) => Some(store.keypairs_path()),
        None => None,
    }
}

/// The file name ends with the suffix of a credential file.
pub open spec fn has_file_suffix(file_name: Seq<char>) -> bool {
    &&& file_name.len() >= file_suffix().len()
    &&& file_name.subrange(file_name.len() - file_suffix().len(), file_name.len() as int)
        == file_suffix()
}

/// The credential that a directory entry stands for: the file name without the
/// suffix of a credential file, or the whole file name where it has no such
/// suffix.
pub open spec fn entry_name(file_name: Seq<char>) -> Seq<char> {
    if has_file_suffix(file_name) {
        file_name.subrange(0, file_name.len() - file_suffix().len())
    } else {
        file_name
    }
}

/// The suffix of a credential file, character by character.
pub proof fn lemma_file_suffix()
    ensures
        file_suffix() == seq!['.', 'j', 's', 'o', 'n'],
{
    reveal_strlit(".json");
    assert(".json"@ =~= seq!['.', 'j', 's', 'o', 'n']);
}

/// A listing names what was stored: the entry of the file that stores the
/// credential `name` stands for `name` again.
pub proof fn lemma_entry_names_the_credential(name: Seq<char>)
    ensures
        has_file_suffix(credential_file_name(name)),
        entry_name(credential_file_name(name)) == name,
{
    let file_name = credential_file_name(name);
    assert(file_name.subrange(name.len() as int, file_name.len() as int) =~= file_suffix());
    assert(file_name.subrange(0, name.len() as int) =~= name);
}

/// The name of the credential that a directory entry stands for.
pub fn credential_name(file_name: &str) -> (name: String)
    ensures
        name@ == entry_name(file_name@),
{
    proof {
        lemma_file_suffix();
    }
    let length = file_name.unicode_len();
    if length >= 5 {
        let stem = length - 5;
        let ghost tail = file_name@.subrange(stem as int, length as int);
        assert(tail.len() == 5);
        assert(forall|i: int| 0 <= i < 5 ==> tail[i] == file_name@[stem + i]);
        if file_name.get_char(stem) == '.' && file_name.get_char(stem + 1) == 'j'
            && file_name.get_char(stem + 2) == 's' && file_name.get_char(stem + 3) == 'o'
            && file_name.get_char(stem + 4) == 'n' {
            assert(tail =~= file_suffix());
            return String::from_str(file_name.substring_char(0, stem));
        }
        assert(tail != file_suffix()) by {
            if tail == file_suffix() {
                assert(tail[0] == '.' && tail[1] == 'j' && tail[2] == 's' && tail[3] == 'o'
                    && tail[4] == 'n');
            }
        }
    }
    String::from_str(file_name)
}

/// The names of the stored credentials, given the file names that the
/// `keypairs` directory lists: one name for each entry, in the order of the
/// listing.
pub fn get_keypairs_list(entries: &Vec<String>) -> (names: Vec<String>)
    ensures
        names@.len() == entries@.len(),
        forall|i: int| 0 <= i < entries@.len() ==> names@[i]@ == entry_name(#[trigger] entries@[i]@),
{
    let mut names: Vec<String> = Vec::new();
    let mut i: usize = 0;
    while i < entries.len()
        invariant
            i <= entries.len(),
            names@.len() == i,
            forall|j: int| 0 <= j < i ==> names@[j]@ == entry_name(#[trigger] entries@[j]@),
        decreases entries.len() - i,
    {
        names.push(credential_name(entries[i].as_str()));
        i += 1;
    }
    names
}

/// The names of the stored credentials, given how the reading of the
/// `keypairs` directory ended: `None` for a directory that is missing or cannot
/// be read, else the file names it lists. A failed reading is an `Io` error, not
/// an empty list: a store that was never set up is not an empty store.
pub fn listed_names(outcome: Option<&Vec<String>>) -> (listed: Result<Vec<String>, KeystoreError>)
    ensures
        match outcome {
            Some(entries) => listed matches Ok(names) && names@.len() == entries@.len()
                && forall|i: int|
                0 <= i < entries@.len() ==> names@[i]@ == entry_name(#[trigger] entries@[i]@),
            None => listed matches Err(error) && error == KeystoreError::Io,
        },
{
    match outcome {
        Some(entries) => Ok(get_keypairs_list(entries)),
        None => Err(KeystoreError::Io),
    }
}

} // verus!
