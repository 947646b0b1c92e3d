//! The commands of the keystore and what each of them asks for.

use crate::generator::is_keypair;
use crate::record::{Keystore, KeystoreView};
use crate::session::{begin_load, begin_save, Progress, ProgressView};
use crate::store::{credential_path, keypairs_dir, Store};
use std::path::PathBuf;
use vstd::prelude::*;

verus! {

/// A command line of the keystore.
#[derive(Debug)]
pub struct KeystoreBundle {
    pub subcommand: KeystoreBundleSubcommand,
}

/// The commands.
#[derive(Debug)]
pub enum KeystoreBundleSubcommand {
    /// Generate a credential under `name` and store it. The path is not used:
    /// a new credential always goes to its canonical path.
    New { name: String, path: Option<PathBuf> },
    /// Load the credential file at `path` and store it at its canonical path.
    Import { path: PathBuf },
    /// Unpack a bundle. The keystore does not implement it.
    Unpack { path: PathBuf, output: Option<PathBuf>, raw: bool, force: bool },
    /// List the names of the stored credentials.
    List,
}

/// What a command asks its driver to do.
#[derive(Debug)]
pub enum Dispatch {
    /// Drive the session that has started.
    Session(Progress),
    /// Read the file names in `dir` and hand the outcome to `listed_names`,
    /// which gives the names, or the `Io` error for a directory that is
    /// missing or cannot be read.
    List { dir: PathBuf },
    /// Report that the command is not implemented.
    NotImplemented,
}

/// The mathematical value of a `Dispatch`.
pub enum DispatchView {
    Session(ProgressView),
    List { dir: PathBuf },
    NotImplemented,
}

impl View for Dispatch {
    type V = DispatchView;

    open spec fn view(&self) -> DispatchView {
        match *self {
            Dispatch::Session(progress) => DispatchView::Session(progress@),
            Dispatch::List { dir } => DispatchView::List { dir },
            Dispatch::NotImplemented => DispatchView::NotImplemented,
        }
    }
}

impl KeystoreBundle {
    /// Runs the command line: all the work is the subcommand's.
    pub fn run(self, store: &Store) -> (dispatch: Dispatch)
        ensures
            self.subcommand.asks(*store, dispatch@),
    {
        self.subcommand.run(store)
    }
}

impl KeystoreBundleSubcommand {
    /// `dispatch` is what this command asks for in `store`: `New` the save of
    /// some keypair under its name at the canonical path, `Import` the
    /// load of its file, `List` the listing of the store's directory, `Unpack`
    /// nothing that is implemented.
    pub open spec fn asks(self, store: Store, dispatch: DispatchView) -> bool {
        match self {
            KeystoreBundleSubcommand::New { name, .. } => exists|keypair: Seq<u8>|
                is_keypair(keypair) && dispatch == DispatchView::Session(
                    begin_save(
                        credential_path(store.root, name@),
                        KeystoreView { name: name@, keypair },
                        false,
                    ),
                ),
            KeystoreBundleSubcommand::Import { path } => dispatch == DispatchView::Session(
                begin_load(path, store),
            ),
            KeystoreBundleSubcommand::Unpack { .. } => dispatch == DispatchView::NotImplemented,
            KeystoreBundleSubcommand::List => dispatch == DispatchView::List {
                dir: keypairs_dir(store.root),
            },
        }
    }

    /// Runs the command as far as it goes without the file system, and says
    /// what the driver has to do.
    pub fn run(self, store: &Store) -> (dispatch: Dispatch)
        ensures
            self.asks(*store, dispatch@),
    {
        match self {
            KeystoreBundleSubcommand::New { name, path: _ } => Dispatch::Session(
                store.generate_and_save(name),
            ),
            KeystoreBundleSubcommand::Import { path } => Dispatch::Session(
                Keystore::load(&path, store),
            ),
            KeystoreBundleSubcommand::Unpack { .. } => Dispatch::NotImplemented,
            KeystoreBundleSubcommand::List => Dispatch::List { dir: store.keypairs_path() },
        }
    }
}

} // verus!
