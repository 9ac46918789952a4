//! The preview coordinator.
//!
//! A `Preview` owns what the single navigation loop of the application needs
//! to keep the preview pane honest: the lock describing what is on screen,
//! the skip offset, and the two optional handles for work in flight (one
//! asynchronous previewer run, one folder-load task). Every operation is a
//! decision function: it updates the state and returns what the runtime
//! around it must now do — run a previewer, or start a folder load. The
//! runtime performs the effect and hands the resulting handle back through
//! the install functions, so at most one handle of each kind is ever live.

use vstd::prelude::*;

use crate::entry::{Cha, File};
use tokio::task::JoinHandle;
use tokio_util::sync::CancellationToken;

verus! {

/// Identity and fingerprint of the content currently considered displayed.
///
/// At most one exists at a time; it is written by the previewer's completion
/// path (outside this library) and cleared by [`Preview::reset`].
#[derive(Clone, Debug)]
pub struct PreviewLock {
    /// Location of the displayed content.
    pub url: String,
    /// Skip offset the content was rendered with.
    pub skip: usize,
    /// Fingerprint of the displayed content.
    pub cha: Cha,
}

/// A resolved previewer: how to run it, and whether it runs inline.
///
/// Resolution from (location, content type) to a previewer lives in the
/// application's registry; the coordinator only consumes the result.
#[derive(Clone, Debug)]
pub struct Previewer {
    /// True for a previewer cheap enough to run to completion inline; such a
    /// run blocks the caller and needs no cancellation handle.
    pub sync: bool,
    /// The previewer program the runtime is to run.
    pub run: String,
}

/// What a navigation decided: the effect the runtime must now perform.
#[derive(Clone, Copy, Debug, PartialEq, Eq, Structural)]
pub enum Dispatch {
    /// The lock already covers the entry; nothing to do.
    Unchanged,
    /// No previewer exists for the entry: the state was fully reset and the
    /// runtime should hide any shown image. An empty preview, not an error.
    Cleared,
    /// Run the resolved previewer inline, to completion.
    RunSync,
    /// Start the resolved previewer asynchronously and install its
    /// cancellation token through [`Preview::install_previewer_handle`].
    RunAsync,
}

/// The coordinating owner of preview state. See the module description.
pub struct Preview {
    /// What is currently considered displayed, if anything.
    pub lock: Option<PreviewLock>,
    /// The skip offset navigation currently asks for.
    pub skip: usize,
    /// Cancellation token of the one outstanding asynchronous previewer run.
    pub previewer_ct: Option<CancellationToken>,
    /// Join handle of the one outstanding folder-load task.
    pub folder_loader: Option<JoinHandle<()>>,
}

impl Default for Preview {
    /// The initial state: nothing displayed, nothing in flight, skip zero.
    fn default() -> (r: Preview)
        ensures
            r.lock is None,
            r.skip == 0,
            r.previewer_ct is None,
            r.folder_loader is None,
    {
        Preview { lock: None, skip: 0, previewer_ct: None, folder_loader: None }
    }
}

impl Preview {
    /// The entry at `url` with fingerprint `cha` is content-unchanged: the
    /// lock exists, covers the same location at the same skip offset, and the
    /// fingerprints hit. Redisplaying such an entry would change nothing.
    pub open spec fn content_unchanged_spec(self, url: Seq<char>, cha: Cha) -> bool {
        match self.lock {
            Some(l) => l.url@ == url && self.skip == l.skip && cha.spec_hits(l.cha),
            None => false,
        }
    }

    /// State after `abort`: the previewer handle slot is empty, all else kept.
    pub open spec fn abort_next(self) -> Preview {
        Preview {
            lock: self.lock,
            skip: self.skip,
            previewer_ct: None,
            folder_loader: self.folder_loader,
        }
    }

    /// State after `reset`: aborted and with the lock cleared.
    pub open spec fn reset_next(self) -> Preview {
        Preview {
            lock: None,
            skip: self.skip,
            previewer_ct: None,
            folder_loader: self.folder_loader,
        }
    }

    /// State with an asynchronous previewer handle installed.
    pub open spec fn with_previewer_handle(self, ct: CancellationToken) -> Preview {
        Preview {
            lock: self.lock,
            skip: self.skip,
            previewer_ct: Some(ct),
            folder_loader: self.folder_loader,
        }
    }

    /// State with a folder-load task handle installed.
    pub open spec fn with_folder_handle(self, h: JoinHandle<()>) -> Preview {
        Preview {
            lock: self.lock,
            skip: self.skip,
            previewer_ct: self.previewer_ct,
            folder_loader: Some(h),
        }
    }

    /// What `go` decides for this state and these inputs.
    pub open spec fn go_decision(self, file: File, p: Option<Previewer>, force: bool) -> Dispatch {
        if !force && self.content_unchanged_spec(file.url@, file.cha) {
            Dispatch::Unchanged
        } else {
            match p {
                None => Dispatch::Cleared,
                Some(pv) => if pv.sync {
                    Dispatch::RunSync
                } else {
                    Dispatch::RunAsync
                },
            }
        }
    }

    /// The state `go` leaves behind for this state and these inputs.
    pub open spec fn go_next(self, file: File, p: Option<Previewer>, force: bool) -> Preview {
        if !force && self.content_unchanged_spec(file.url@, file.cha) {
            self
        } else {
            match p {
                None => self.reset_next(),
                Some(_) => self.abort_next(),
            }
        }
    }

    /// Whether a folder navigation reloads the listing: only when, after the
    /// dispatch, the lock does not cover the entry's captured fingerprint.
    pub open spec fn go_folder_reload(self, file: File, p: Option<Previewer>, force: bool) -> bool {
        !self.go_next(file, p, force).content_unchanged_spec(file.url@, file.cha)
    }

    /// The state `go_folder` leaves behind: the dispatch state, with the
    /// folder-load slot emptied when a reload is to be started.
    pub open spec fn go_folder_next(self, file: File, p: Option<Previewer>, force: bool) -> Preview {
        let mid = self.go_next(file, p, force);
        if mid.content_unchanged_spec(file.url@, file.cha) {
            mid
        } else {
            Preview {
                lock: mid.lock,
                skip: mid.skip,
                previewer_ct: mid.previewer_ct,
                folder_loader: None,
            }
        }
    }

    /// A lock exists and names this location.
    pub open spec fn same_url_spec(self, url: Seq<char>) -> bool {
        match self.lock {
            Some(l) => l.url@ == url,
            None => false,
        }
    }

    /// Executable form of [`Preview::content_unchanged_spec`].
    fn content_unchanged(&self, url: &String, cha: Cha) -> (r: bool)
        ensures
            r == self.content_unchanged_spec(url@, cha),
    {
        match &self.lock {
            Some(l) => *url == l.url && self.skip == l.skip && cha.hits(l.cha),
            None => false,
        }
    }

    /// Navigate to `file`, with `previewer` resolved by the application's
    /// registry for the entry's content type.
    ///
    /// Unless `force` is set, an entry the lock already covers is skipped
    /// outright. Otherwise, with no previewer the state is fully reset (an
    /// empty preview, not an error), and with one the outstanding previewer
    /// run is cancelled first and the returned decision tells the runtime how
    /// to run the new one. After `RunAsync` the runtime hands the run's token
    /// to [`Preview::install_previewer_handle`].
    pub fn go(&mut self, file: &File, previewer: &Option<Previewer>, force: bool) -> (d: Dispatch)
        ensures
            *final(self) == old(self).go_next(*file, *previewer, force),
            d == old(self).go_decision(*file, *previewer, force),
    {
        if !force && self.content_unchanged(&file.url, file.cha) {
            return Dispatch::Unchanged;
        }
        match previewer {
            None => {
                self.reset();
                Dispatch::Cleared
            },
            Some(p) => {
                self.abort();
                if p.sync {
                    Dispatch::RunSync
                } else {
                    Dispatch::RunAsync
                }
            },
        }
    }

    /// Navigate into a directory: dispatch the preview exactly as [`Preview::go`]
    /// does (the application resolves `previewer` for its directory content
    /// type), then decide whether the listing itself must be reloaded, using
    /// the entry's fingerprint as captured before the dispatch.
    ///
    /// Returns the dispatch decision and whether to start a folder load. When
    /// a load is to start, the previous folder-load task has been aborted and
    /// the slot is empty; the runtime spawns the new task and hands its handle
    /// to [`Preview::install_folder_handle`]. Deliberately, "does the preview
    /// need redrawing" and "does the listing need reloading" are decided
    /// independently, both from the captured fingerprint.
    pub fn go_folder(&mut self, file: &File, previewer: &Option<Previewer>, force: bool) -> (r: (
        Dispatch,
        bool,
    ))
        ensures
            *final(self) == old(self).go_folder_next(*file, *previewer, force),
            r.0 == old(self).go_decision(*file, *previewer, force),
            r.1 == old(self).go_folder_reload(*file, *previewer, force),
    {
        let d = self.go(file, previewer, force);
        if self.content_unchanged(&file.url, file.cha) {
            return (d, false);
        }
        match self.folder_loader.take() {
            Some(h) => h.abort(),
            None => {},
        }
        (d, true)
    }

    /// Cancel the outstanding asynchronous previewer run, if any, and empty
    /// its slot. Idempotent on an empty slot.
    ///
    /// The application layer couples this with its process-wide cooperative
    /// "stop highlighting" signal, which this library does not own.
    pub fn abort(&mut self)
        ensures
            *final(self) == old(self).abort_next(),
    {
        match self.previewer_ct.take() {
            Some(ct) => ct.cancel(),
            None => {},
        }
    }

    /// Abort the previewer run and clear the lock; returns whether a lock was
    /// present, so the caller knows whether a redraw is due. The caller also
    /// hides any shown terminal image, best-effort.
    pub fn reset(&mut self) -> (had: bool)
        ensures
            *final(self) == old(self).reset_next(),
            had == (old(self).lock is Some),
    {
        self.abort();
        self.lock.take().is_some()
    }

    /// Abort the previewer run without discarding what the lock says is
    /// displayed: used when losing display focus. The caller hides any shown
    /// terminal image, best-effort.
    pub fn reset_image(&mut self)
        ensures
            *final(self) == old(self).abort_next(),
    {
        self.abort();
    }

    /// True iff a lock exists and names this location — used to discard stale
    /// previewer completions racing against a newer navigation.
    pub fn same_url(&self, url: &String) -> (r: bool)
        ensures
            r == self.same_url_spec(url@),
    {
        match &self.lock {
            Some(l) => l.url == *url,
            None => false,
        }
    }

    /// Install the cancellation token of the asynchronous previewer run that
    /// a `RunAsync` decision had the runtime start. The dispatch emptied the
    /// slot, so no live handle is ever overwritten.
    pub fn install_previewer_handle(&mut self, ct: CancellationToken)
        requires
            old(self).previewer_ct is None,
        ensures
            *final(self) == old(self).with_previewer_handle(ct),
    {
        self.previewer_ct = Some(ct);
    }

    /// Install the join handle of the folder-load task that a reload decision
    /// had the runtime spawn. The decision emptied the slot, so no live
    /// handle is ever overwritten.
    pub fn install_folder_handle(&mut self, h: JoinHandle<()>)
        requires
            old(self).folder_loader is None,
        ensures
            *final(self) == old(self).with_folder_handle(h),
    {
        self.folder_loader = Some(h);
    }
}

/// Idempotent re-navigation: while the lock covers the entry, a non-forced
/// `go` decides `Unchanged` and leaves the state untouched, so a second
/// identical navigation decides `Unchanged` again — an unchanged entry costs
/// nothing, and a previewer is dispatched only when content is actually new.
pub proof fn lemma_go_idempotent(s: Preview, file: File, p: Option<Previewer>)
    requires
        s.content_unchanged_spec(file.url@, file.cha),
    ensures
        s.go_decision(file, p, false) == Dispatch::Unchanged,
        s.go_next(file, p, false) == s,
        s.go_next(file, p, false).go_decision(file, p, false) == Dispatch::Unchanged,
{
}

/// Forced bypass: with a previewer resolved, a forced navigation always
/// dispatches — inline or asynchronously — even when the lock covers the
/// entry.
pub proof fn lemma_force_dispatches(s: Preview, file: File, p: Previewer)
    ensures
        s.go_decision(file, Some(p), true) == (if p.sync {
            Dispatch::RunSync
        } else {
            Dispatch::RunAsync
        }),
{
}

/// Cancellation exclusivity: across two consecutive asynchronous dispatches,
/// the dispatch preceding each installation empties the handle slot — the
/// executable `abort` cancels the very token it removes — so after the second
/// installation only the second handle is held.
pub proof fn lemma_cancellation_exclusive(
    s: Preview,
    f1: File,
    p1: Option<Previewer>,
    force1: bool,
    f2: File,
    p2: Option<Previewer>,
    force2: bool,
    h1: CancellationToken,
    h2: CancellationToken,
)
    requires
        s.go_decision(f1, p1, force1) == Dispatch::RunAsync,
        s.go_next(f1, p1, force1).with_previewer_handle(h1).go_decision(f2, p2, force2)
            == Dispatch::RunAsync,
    ensures
        ({
            let s1 = s.go_next(f1, p1, force1).with_previewer_handle(h1);
            s1.go_next(f2, p2, force2).previewer_ct is None
        }),
        ({
            let s1 = s.go_next(f1, p1, force1).with_previewer_handle(h1);
            let s2 = s1.go_next(f2, p2, force2).with_previewer_handle(h2);
            s2.previewer_ct == Some(h2) && (h1 != h2 ==> s2.previewer_ct != Some(h1))
        }),
{
}

/// Folder-reload suppression: while the lock covers the directory entry, a
/// non-forced folder navigation starts no load and leaves the state
/// untouched, so two such navigations in a row start no load between them.
pub proof fn lemma_folder_reload_suppressed(s: Preview, file: File, p: Option<Previewer>)
    requires
        s.content_unchanged_spec(file.url@, file.cha),
    ensures
        !s.go_folder_reload(file, p, false),
        s.go_folder_next(file, p, false) == s,
        !s.go_folder_next(file, p, false).go_folder_reload(file, p, false),
{
}

} // verus!
