//! An application's filesystem plan under the person's review: presenting
//! it, and telling its owner how it ended.

use vstd::prelude::*;

use crate::app::{App, FsConfirmation};
use crate::keys::Mode;

verus! {

/// How an application's filesystem plan ended.
pub struct FsFinished {
    /// The plan's handle.
    pub plan: String,
    /// `cancelled`, or the state the applying code reports.
    pub state: String,
    /// How many operations were applied.
    pub applied: usize,
    /// Some operation left something to recover.
    pub recovery: bool,
}

/// `r` bumped by one, wrapping to zero past the largest value.
pub open spec fn bumped(r: u64) -> u64 {
    if r == u64::MAX {
        0
    } else {
        (r + 1) as u64
    }
}

impl App {
    /// Whether something other than a plugin owns input: the prompt, an
    /// overlay, or a macro being replayed or recorded.
    pub open spec fn spec_plugin_has_input_surface(&self) -> bool {
        self.mode == Mode::Command || self.input_overlay || self.macro_replay_pending
            || self.recording_macro
    }

    /// Whether something other than a plugin owns input.
    pub fn plugin_has_input_surface(&self) -> (b: bool)
        ensures
            b == self.spec_plugin_has_input_surface(),
    {
        self.mode == Mode::Command || self.input_overlay || self.macro_replay_pending
            || self.recording_macro
    }

    /// Presents `owner`'s filesystem plan `handle` of `operations`
    /// operations for review, over the active buffer, under a new
    /// confirmation revision.
    pub fn present_plugin_filesystem(&mut self, owner: usize, handle: String, operations: usize)
        requires
            old(self).wf(),
        ensures
            final(self).confirmation_revision == bumped(old(self).confirmation_revision),
            final(self).plugins.filesystem.confirmation == Some(
                (owner, handle, final(self).confirmation_revision, old(self).active().buffer),
            ),
            final(self).fs_confirmation == Some(
                FsConfirmation { buffer: old(self).active().buffer, operations, selected: 0 },
            ),
            final(self).plugins.presentation_dirty,
            final(self).status@ == "Review application filesystem changes before applying"@,
            !final(self).status_error,
            final(self).plugins.filesystem.finished == old(self).plugins.filesystem.finished,
            final(self).wf(),
    {
        self.confirmation_revision = self.confirmation_revision.wrapping_add(1);
        let buffer = self.active_pane_snapshot().buffer;
        self.plugins.filesystem.confirmation = Some((owner, handle, self.confirmation_revision, buffer));
        self.fs_confirmation = Some(FsConfirmation { buffer, operations, selected: 0 });
        self.plugins.presentation_dirty = true;
        self.set_status(String::from_str("Review application filesystem changes before applying"));
    }

    /// Cancels the plan under review when it is `owner`'s, and its handle is
    /// `handle` or `handle` is `None`: its review closes if it is still the
    /// current confirmation, and its owner is told it was cancelled with
    /// nothing applied.
    #[verifier::rlimit(60)]
    pub fn cancel_plugin_filesystem(&mut self, owner: usize, handle: Option<&str>)
        ensures
            match old(self).plugins.filesystem.confirmation {
                Some((o, plan, revision, _)) if o == owner && (handle matches Some(h) ==> h@ == plan@) => {
                    &&& final(self).plugins.filesystem.confirmation is None
                    &&& final(self).fs_confirmation == (if old(self).confirmation_revision == revision {
                        None
                    } else {
                        old(self).fs_confirmation
                    })
                    &&& final(self).plugins.filesystem.finished@.len() == old(self).plugins.filesystem.finished@.len() + 1
                    &&& final(self).plugins.filesystem.finished@.drop_last() == old(self).plugins.filesystem.finished@
                    &&& final(self).plugins.filesystem.finished@.last().0 == owner
                    &&& final(self).plugins.filesystem.finished@.last().1.plan == plan
                    &&& final(self).plugins.filesystem.finished@.last().1.state@ == "cancelled"@
                    &&& final(self).plugins.filesystem.finished@.last().1.applied == 0
                    &&& !final(self).plugins.filesystem.finished@.last().1.recovery
                    &&& final(self).plugins.presentation_dirty
                    &&& *final(self) == (App {
                        fs_confirmation: final(self).fs_confirmation,
                        plugins: final(self).plugins,
                        ..*old(self)
                    })
                },
                _ => *final(self) == *old(self),
            },
            final(self).plugins.input == old(self).plugins.input,
            final(self).plugins.providers.overwrite == old(self).plugins.providers.overwrite,
            final(self).plugins.providers.reload == old(self).plugins.providers.reload,
    {
        let matches = match &self.plugins.filesystem.confirmation {
            Some(c) => c.0 == owner && match handle {
                Some(h) => crate::validation::str_is(&c.1, h),
                None => true,
            },
            None => false,
        };
        if !matches {
            return;
        }
        let Some((_, plan, revision, _)) = self.plugins.filesystem.confirmation.take() else {
            return;
        };
        if self.confirmation_revision == revision {
            self.fs_confirmation = None;
        }
        self.plugins.filesystem.finished.push(
            (owner, FsFinished { plan, state: String::from_str("cancelled"), applied: 0, recovery: false }),
        );
        self.plugins.presentation_dirty = true;
    }

    /// Cancels the plan under review once its review has closed or been
    /// replaced, no frontend is attached, or its initiating buffer closed.
    pub fn sync_plugin_filesystem_confirmation(&mut self)
        ensures
            match old(self).plugins.filesystem.confirmation {
                Some((owner, plan, revision, buffer)) => if old(self).fs_confirmation is None || revision
                    != old(self).confirmation_revision || !old(self).plugins.frontend_attached
                    || old(self).closed_buffers@.contains(buffer) {
                    &&& final(self).plugins.filesystem.confirmation is None
                    &&& final(self).fs_confirmation == (if old(self).confirmation_revision == revision {
                        None
                    } else {
                        old(self).fs_confirmation
                    })
                    &&& final(self).plugins.filesystem.finished@.len() == old(self).plugins.filesystem.finished@.len() + 1
                    &&& final(self).plugins.filesystem.finished@.drop_last() == old(self).plugins.filesystem.finished@
                    &&& final(self).plugins.filesystem.finished@.last().0 == owner
                    &&& final(self).plugins.filesystem.finished@.last().1.plan == plan
                    &&& final(self).plugins.filesystem.finished@.last().1.state@ == "cancelled"@
                    &&& final(self).plugins.presentation_dirty
                } else {
                    *final(self) == *old(self)
                },
                None => *final(self) == *old(self),
            },
    {
        let stale = match &self.plugins.filesystem.confirmation {
            Some(c) => self.fs_confirmation.is_none() || c.2 != self.confirmation_revision
                || !self.plugins.frontend_attached || self.is_closed(c.3),
            None => false,
        };
        if stale {
            let owner = match &self.plugins.filesystem.confirmation {
                Some(c) => c.0,
                None => return,
            };
            self.cancel_plugin_filesystem(owner, None);
        }
    }

    /// Tells the owner of the plan `result` how it ended, when there was
    /// one.
    pub fn finish_plugin_filesystem(
        &mut self,
        result: Option<(usize, String, u64, usize)>,
        state: &str,
        applied: usize,
        recovery: bool,
    )
        ensures
            match result {
                Some((owner, plan, _, _)) => {
                    &&& final(self).plugins.filesystem.finished@.len() == old(self).plugins.filesystem.finished@.len() + 1
                    &&& final(self).plugins.filesystem.finished@.drop_last() == old(self).plugins.filesystem.finished@
                    &&& final(self).plugins.filesystem.finished@.last().0 == owner
                    &&& final(self).plugins.filesystem.finished@.last().1.plan == plan
                    &&& final(self).plugins.filesystem.finished@.last().1.state@ == state@
                    &&& final(self).plugins.filesystem.finished@.last().1.applied == applied
                    &&& final(self).plugins.filesystem.finished@.last().1.recovery == recovery
                },
                None => final(self).plugins.filesystem.finished == old(self).plugins.filesystem.finished,
            },
            *final(self) == (App {
                plugins: crate::app::Plugins {
                    filesystem: crate::app::FsReview { finished: final(self).plugins.filesystem.finished, ..old(self).plugins.filesystem },
                    ..old(self).plugins
                },
                ..*old(self)
            }),
    {
        if let Some((owner, plan, _, _)) = result {
            self.plugins.filesystem.finished.push(
                (owner, FsFinished { plan, state: String::from_str(state), applied, recovery }),
            );
        }
    }
}

} // verus!
