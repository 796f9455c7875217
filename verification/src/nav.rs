use crate::list::{step_forward, SelectableList};
use crate::path::{is_root, join, join_spec, lemma_parent_of_join, parent_of, parent_spec};
use vstd::prelude::*;

verus! {

/// Why a navigation operation failed.
#[derive(Clone, Copy, Debug, PartialEq, Eq, Structural)]
pub enum NavError {
    /// A directory could not be read as one.
    FilesystemAccessError,
    /// An operation that needs a selected entry found none.
    NoSelectionError,
    /// The filesystem refused to remove the selected file.
    DeleteError,
    /// The byte copy of a paste failed.
    CopyError,
    /// No home directory could be resolved at startup.
    HomeResolutionError,
}

/// The navigation state: where the browser stands in the filesystem, the
/// listing shown for that directory, and the single-slot clipboard. The
/// filesystem itself is the caller's side: every operation that depends on
/// it takes the filesystem's answer as an argument and is verified for
/// every possible answer.
pub struct Navigator {
    pub current_directory: String,
    pub home_directory: String,
    pub entries: SelectableList<String>,
    pub clipboard_source_path: Option<String>,
    pub clipboard_display_name: Option<String>,
}

impl Navigator {
    /// The cursor points inside the listing, and the clipboard's two halves
    /// are filled or empty together.
    pub open spec fn wf(&self) -> bool {
        &&& self.entries.wf()
        &&& (self.clipboard_source_path is Some <==> self.clipboard_display_name is Some)
    }

    /// The state shows directory `path` freshly loaded with entry names
    /// `names`, the cursor moved once from the cleared selection: onto the
    /// first entry, or absent when the directory is empty.
    pub open spec fn shows(self, path: Seq<char>, names: Seq<String>) -> bool {
        &&& self.current_directory@ == path
        &&& self.entries.items@ == names
        &&& self.entries.sel() == step_forward(names.len() as int, None::<int>)
    }

    /// Home directory and clipboard agree with `prior`.
    pub open spec fn keeps_home_and_clipboard(self, prior: Navigator) -> bool {
        &&& self.home_directory == prior.home_directory
        &&& self.clipboard_source_path == prior.clipboard_source_path
        &&& self.clipboard_display_name == prior.clipboard_display_name
    }

    /// The clipboard holds a source path that resolves the display name
    /// inside the current directory — what a copy taken in this directory
    /// leaves behind.
    pub open spec fn clipboard_in_current(self) -> bool {
        &&& self.clipboard_source_path matches Some(src) && self.clipboard_display_name matches Some(nm)
            && src@ == join_spec(self.current_directory@, nm@)
    }

    /// What a paste works on: the clipboard's source path, and the display
    /// name resolved inside the current directory; nothing when the
    /// clipboard is empty.
    pub open spec fn paste_target_spec(self) -> Option<(Seq<char>, Seq<char>)> {
        match (self.clipboard_source_path, self.clipboard_display_name) {
            (Some(src), Some(nm)) => Some((src@, join_spec(self.current_directory@, nm@))),
            _ => None,
        }
    }

    /// The directory that going back loads: the filesystem root when the
    /// browser stands at its home directory or already at the root, else
    /// the parent of the current directory.
    pub open spec fn back_target_spec(self) -> Seq<char> {
        if self.current_directory@ == self.home_directory@ || self.current_directory@ == seq!['/'] {
            seq!['/']
        } else {
            parent_spec(self.current_directory@)
        }
    }

    /// A fresh navigation state: standing at the root with an empty listing,
    /// an empty clipboard, and the root standing in for home until startup
    /// resolves the real one.
    pub fn new() -> (r: Navigator)
        ensures
            r.wf(),
            r.current_directory@ == seq!['/'],
            r.home_directory@ == seq!['/'],
            r.entries.items@ == Seq::<String>::empty(),
            r.entries.selected is None,
            r.clipboard_source_path is None,
            r.clipboard_display_name is None,
    {
        proof {
            reveal_strlit("/");
            assert("/"@ =~= seq!['/']);
        }
        Navigator {
            current_directory: String::from_str("/"),
            home_directory: String::from_str("/"),
            entries: SelectableList::with_items(Vec::new()),
            clipboard_source_path: None,
            clipboard_display_name: None,
        }
    }

    /// Replaces the shown listing: `listing` is what the filesystem reported
    /// for `path`, or `None` where `path` could not be read as a directory,
    /// in which case nothing changes and the access error is returned. A
    /// successful load clears the selection.
    pub fn load_directory(&mut self, path: String, listing: Option<Vec<String>>) -> (r: Result<
        (),
        NavError,
    >)
        requires
            old(self).wf(),
        ensures
            final(self).wf(),
            listing matches Some(names) ==> r is Ok && final(self).current_directory == path
                && final(self).entries.items == names && final(self).entries.selected is None
                && final(self).keeps_home_and_clipboard(*old(self)),
            listing is None ==> r == Err::<(), NavError>(NavError::FilesystemAccessError) && *final(self) == *old(self),
    {
        match listing {
            Some(names) => {
                self.entries = SelectableList::with_items(names);
                self.current_directory = path;
                Ok(())
            },
            None => Err(NavError::FilesystemAccessError),
        }
    }

    /// The absolute path of the selected entry inside the current directory,
    /// or the no-selection error when nothing is selected.
    pub fn selected_path(&self) -> (r: Result<String, NavError>)
        requires
            self.wf(),
        ensures
            self.entries.selected matches Some(i) ==> r matches Ok(p) && p@ == join_spec(
                self.current_directory@,
                self.entries.items@[i as int]@,
            ),
            self.entries.selected is None ==> r == Err::<String, NavError>(
                NavError::NoSelectionError,
            ),
    {
        match self.entries.selected {
            Some(i) => Ok(join(&self.current_directory, &self.entries.items[i])),
            None => Err(NavError::NoSelectionError),
        }
    }

    /// Applies the outcome of entering the selected entry. The caller probed
    /// the entry's path: `target_is_dir` says whether it is a directory, and
    /// `listing` lists the entered directory when it is one, else the
    /// current directory afresh. Entering a directory moves into it; a file
    /// only refreshes the view; a failed read changes nothing.
    pub fn enter_selected(&mut self, target_is_dir: bool, listing: Option<Vec<String>>) -> (r:
        Result<(), NavError>)
        requires
            old(self).wf(),
        ensures
            final(self).wf(),
            old(self).entries.selected is None ==> r == Err::<(), NavError>(
                NavError::NoSelectionError,
            ) && *final(self) == *old(self),
            old(self).entries.selected matches Some(i) ==> (listing matches Some(names) ==> r is Ok
                && final(self).shows(
                if target_is_dir {
                    join_spec(old(self).current_directory@, old(self).entries.items@[i as int]@)
                } else {
                    old(self).current_directory@
                },
                names@,
            ) && final(self).keeps_home_and_clipboard(*old(self))),
            old(self).entries.selected is Some && listing is None ==> r == Err::<(), NavError>(
                NavError::FilesystemAccessError,
            ) && *final(self) == *old(self),
    {
        match self.entries.selected {
            Some(i) => {
                let target: String = if target_is_dir {
                    join(&self.current_directory, &self.entries.items[i])
                } else {
                    self.current_directory.clone()
                };
                match self.load_directory(target, listing) {
                    Ok(()) => {
                        self.entries.advance();
                        Ok(())
                    },
                    Err(e) => Err(e),
                }
            },
            None => Err(NavError::NoSelectionError),
        }
    }

    /// The directory that going back will load.
    pub fn back_target(&self) -> (r: String)
        ensures
            r@ == self.back_target_spec(),
            self.current_directory@ == self.home_directory@ ==> r@ == seq!['/'],
    {
        if self.current_directory.eq(&self.home_directory) || is_root(&self.current_directory) {
            proof {
                reveal_strlit("/");
                assert("/"@ =~= seq!['/']);
            }
            String::from_str("/")
        } else {
            parent_of(&self.current_directory)
        }
    }

    /// Applies the outcome of going back: `listing` lists the back target —
    /// the parent directory, or the root when standing at home or at the
    /// root — or is `None` where it could not be read, in which case nothing
    /// changes.
    pub fn go_back(&mut self, listing: Option<Vec<String>>) -> (r: Result<(), NavError>)
        requires
            old(self).wf(),
        ensures
            final(self).wf(),
            listing matches Some(names) ==> r is Ok && final(self).shows(
                old(self).back_target_spec(),
                names@,
            ) && final(self).keeps_home_and_clipboard(*old(self)),
            listing is None ==> r == Err::<(), NavError>(NavError::FilesystemAccessError) && *final(self) == *old(self),
    {
        let target = self.back_target();
        match self.load_directory(target, listing) {
            Ok(()) => {
                self.entries.advance();
                Ok(())
            },
            Err(e) => Err(e),
        }
    }

    /// Applies the outcome of deleting the selected entry: `delete_ok` says
    /// whether the filesystem removed the file, and `listing` lists the
    /// current directory afresh, read after the attempt. The fresh listing
    /// is applied even when the delete failed, so the display matches the
    /// filesystem; the delete failure still wins in the result.
    pub fn delete_selected(&mut self, delete_ok: bool, listing: Option<Vec<String>>) -> (r: Result<
        (),
        NavError,
    >)
        requires
            old(self).wf(),
        ensures
            final(self).wf(),
            old(self).entries.selected is None ==> r == Err::<(), NavError>(
                NavError::NoSelectionError,
            ) && *final(self) == *old(self),
            old(self).entries.selected is Some ==> (listing matches Some(names) ==> final(self).shows(
                old(self).current_directory@,
                names@,
            ) && final(self).keeps_home_and_clipboard(*old(self))),
            old(self).entries.selected is Some && listing is None ==> *final(self) == *old(self),
            old(self).entries.selected is Some ==> r == (if !delete_ok {
                Err::<(), NavError>(NavError::DeleteError)
            } else if listing is None {
                Err::<(), NavError>(NavError::FilesystemAccessError)
            } else {
                Ok::<(), NavError>(())
            }),
    {
        match self.entries.selected {
            Some(_) => {
                let cur = self.current_directory.clone();
                let reload_failed: bool = match self.load_directory(cur, listing) {
                    Ok(()) => {
                        self.entries.advance();
                        false
                    },
                    Err(_) => true,
                };
                if !delete_ok {
                    Err(NavError::DeleteError)
                } else if reload_failed {
                    Err(NavError::FilesystemAccessError)
                } else {
                    Ok(())
                }
            },
            None => Err(NavError::NoSelectionError),
        }
    }

    /// Records the selected entry in the clipboard — its absolute path as
    /// the source, its bare name as the display name — and applies a fresh
    /// listing of the current directory. Copying touches nothing on the
    /// filesystem; only the clipboard changes.
    pub fn copy_selected(&mut self, listing: Option<Vec<String>>) -> (r: Result<(), NavError>)
        requires
            old(self).wf(),
        ensures
            final(self).wf(),
            old(self).entries.selected is None ==> r == Err::<(), NavError>(
                NavError::NoSelectionError,
            ) && *final(self) == *old(self),
            old(self).entries.selected matches Some(i) ==> final(self).clipboard_source_path
                matches Some(src) && src@ == join_spec(
                old(self).current_directory@,
                old(self).entries.items@[i as int]@,
            ),
            old(self).entries.selected matches Some(i) ==> final(self).clipboard_display_name
                matches Some(nm) && nm@ == old(self).entries.items@[i as int]@,
            old(self).entries.selected is Some ==> final(self).home_directory == old(self).home_directory,
            old(self).entries.selected is Some ==> (listing matches Some(names) ==> r is Ok && final(self).shows(old(self).current_directory@, names@)),
            old(self).entries.selected is Some && listing is None ==> r == Err::<(), NavError>(
                NavError::FilesystemAccessError,
            ) && final(self).current_directory == old(self).current_directory && final(self).entries == old(self).entries,
            old(self).entries.selected is Some ==> final(self).clipboard_in_current(),
    {
        match self.entries.selected {
            Some(i) => {
                let src = join(&self.current_directory, &self.entries.items[i]);
                let name = self.entries.items[i].clone();
                self.clipboard_source_path = Some(src);
                self.clipboard_display_name = Some(name);
                let cur = self.current_directory.clone();
                match self.load_directory(cur, listing) {
                    Ok(()) => {
                        self.entries.advance();
                        Ok(())
                    },
                    Err(e) => Err(e),
                }
            },
            None => Err(NavError::NoSelectionError),
        }
    }

    /// The source path and target path a paste works on, or nothing when
    /// the clipboard is empty — paste then has nothing to do, and skipping
    /// it is not an error.
    pub fn paste_target(&self) -> (r: Option<(String, String)>)
        requires
            self.wf(),
        ensures
            self.paste_target_spec() matches Some(st) ==> r matches Some(p) && p.0@ == st.0
                && p.1@ == st.1,
            self.paste_target_spec() is None ==> r is None,
    {
        match &self.clipboard_source_path {
            Some(src) => match &self.clipboard_display_name {
                Some(nm) => Some((src.clone(), join(&self.current_directory, nm))),
                None => None,
            },
            None => None,
        }
    }

    /// Applies the outcome of a paste. `copy_result` is `None` where no byte
    /// copy was attempted — the clipboard was empty, or its source is not a
    /// regular file, both silently skipped — and otherwise says whether the
    /// byte copy succeeded. `listing` lists the current directory afresh,
    /// read after the attempt. The clipboard is kept either way.
    pub fn paste(&mut self, copy_result: Option<bool>, listing: Option<Vec<String>>) -> (r: Result<
        (),
        NavError,
    >)
        requires
            old(self).wf(),
        ensures
            final(self).wf(),
            final(self).clipboard_source_path == old(self).clipboard_source_path,
            final(self).clipboard_display_name == old(self).clipboard_display_name,
            final(self).home_directory == old(self).home_directory,
            listing matches Some(names) ==> final(self).shows(
                old(self).current_directory@,
                names@,
            ),
            listing is None ==> final(self).current_directory == old(self).current_directory
                && final(self).entries == old(self).entries,
            r == (if copy_result == Some(false) {
                Err::<(), NavError>(NavError::CopyError)
            } else if listing is None {
                Err::<(), NavError>(NavError::FilesystemAccessError)
            } else {
                Ok::<(), NavError>(())
            }),
    {
        let cur = self.current_directory.clone();
        let reload_failed: bool = match self.load_directory(cur, listing) {
            Ok(()) => {
                self.entries.advance();
                false
            },
            Err(_) => true,
        };
        match copy_result {
            Some(false) => Err(NavError::CopyError),
            _ => {
                if reload_failed {
                    Err(NavError::FilesystemAccessError)
                } else {
                    Ok(())
                }
            },
        }
    }

    /// Resolves the user's home directory and records it. The environment
    /// alone decides the outcome, so success cannot be promised; on failure
    /// the state is unchanged and the fatal startup error is returned.
    pub fn setup_home(&mut self) -> (r: Result<String, NavError>)
        requires
            old(self).wf(),
        ensures
            final(self).wf(),
            r matches Ok(h) ==> final(self).home_directory == h && final(self).current_directory
                == old(self).current_directory && final(self).entries == old(self).entries && final(self).clipboard_source_path == old(self).clipboard_source_path && final(self).clipboard_display_name == old(self).clipboard_display_name,
            r matches Err(e) ==> e == NavError::HomeResolutionError && *final(self) == *old(self),
    {
        match resolve_home() {
            Some(h) => {
                self.home_directory = h.clone();
                Ok(h)
            },
            None => Err(NavError::HomeResolutionError),
        }
    }

    /// Applies the startup listing of the home directory recorded by the
    /// home resolution step.
    pub fn finish_setup(&mut self, listing: Option<Vec<String>>) -> (r: Result<(), NavError>)
        requires
            old(self).wf(),
        ensures
            final(self).wf(),
            listing matches Some(names) ==> r is Ok && final(self).shows(
                old(self).home_directory@,
                names@,
            ) && final(self).keeps_home_and_clipboard(*old(self)),
            listing is None ==> r == Err::<(), NavError>(NavError::FilesystemAccessError) && *final(self) == *old(self),
    {
        let h = self.home_directory.clone();
        match self.load_directory(h, listing) {
            Ok(()) => {
                self.entries.advance();
                Ok(())
            },
            Err(e) => Err(e),
        }
    }
}

/// Relies on home::home_dir: asks the environment for the user's home
/// directory, rendered as a plain path string. The outcome depends on the
/// environment alone, so nothing is promised of it.
#[verifier::external_body]
fn resolve_home() -> (r: Option<String>) {
    home::home_dir().map(|p| format!("{}", p.display()))
}

/// Law: whenever the clipboard was filled from the current directory — what
/// `copy_selected` leaves behind, as long as the directory is unchanged —
/// the paste target is exactly the clipboard's source path. Pasting then
/// rewrites the very file that was copied, so the bytes at the target equal
/// the source's bytes, and repeating the paste changes nothing further.
pub proof fn lemma_paste_target_is_source(nav: Navigator)
    requires
        nav.clipboard_in_current(),
    ensures
        nav.paste_target_spec() matches Some(st) && st.1 == st.0,
{
}

/// Law: after entering entry `name` of directory `dir`, going back targets
/// `dir` again, provided the entered directory is not the home directory
/// (entry names hold no separator, and the starting directory is absolute).
pub proof fn lemma_enter_then_back(nav: Navigator, dir: Seq<char>, name: Seq<char>)
    requires
        nav.current_directory@ == join_spec(dir, name),
        nav.current_directory@ != nav.home_directory@,
        dir.len() > 0,
        dir[0] == '/',
        name.len() > 0,
        forall|k: int| 0 <= k < name.len() ==> name[k] != '/',
    ensures
        nav.back_target_spec() == dir,
{
    lemma_parent_of_join(dir, name);
    assert(join_spec(dir, name).len() > 1);
}

} // verus!
