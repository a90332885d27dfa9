//! The shared state of the two branches of a teed byte stream: one read of
//! the source at a time, through a default reader or a BYOB reader as the
//! pulling branch needs, each chunk handed to every branch not canceled, and
//! the source canceled once both branches are.
use vstd::prelude::*;
use crate::effect::Reason;
use crate::tee::{TeeBranch, TeeEffect};
use crate::byte_controller::ReadableStreamByteController;

verus! {

/// The state shared by the pull and cancel algorithms of the two branches of
/// ReadableByteStreamTee.
#[derive(Clone, Copy, PartialEq, Eq, Structural, Debug)]
pub struct ReadableByteStreamTee {
    pub reading: bool,
    pub read_again_for_branch_1: bool,
    pub read_again_for_branch_2: bool,
    pub reason_1: Option<u64>,
    pub reason_2: Option<u64>,
    pub reader_is_byob: bool,
}

/// The branch other than `b`.
pub open spec fn other_branch(b: TeeBranch) -> TeeBranch {
    match b {
        TeeBranch::Branch1 => TeeBranch::Branch2,
        TeeBranch::Branch2 => TeeBranch::Branch1,
    }
}

/// The steps that switch the tee to a reader of the wanted kind, if needed.
pub open spec fn switch_effects(t: ReadableByteStreamTee, byob: bool) -> Seq<TeeEffect> {
    if byob && !t.reader_is_byob {
        seq![TeeEffect::SwitchToByobReader]
    } else if !byob && t.reader_is_byob {
        seq![TeeEffect::SwitchToDefaultReader]
    } else {
        seq![]
    }
}

/// The steps of a pull by `branch` that starts a read, given the view of the
/// branch's BYOB request, if it has one.
pub open spec fn read_effects(t: ReadableByteStreamTee, branch: TeeBranch, byob_view: Option<u64>) -> Seq<TeeEffect> {
    match byob_view {
        None => switch_effects(t, false) + seq![TeeEffect::ReadSource],
        Some(v) => switch_effects(t, true) + seq![TeeEffect::ReadSourceInto { branch, view: v }],
    }
}

impl ReadableByteStreamTee {
    /// The state right after ReadableByteStreamTee acquired a default reader.
    pub fn new() -> (t: Self)
        ensures
            !t.reading && !t.read_again_for_branch_1 && !t.read_again_for_branch_2,
            t.reason_1 is None && t.reason_2 is None,
            !t.reader_is_byob,
    {
        ReadableByteStreamTee {
            reading: false,
            read_again_for_branch_1: false,
            read_again_for_branch_2: false,
            reason_1: Option::None,
            reason_2: Option::None,
            reader_is_byob: false,
        }
    }

    /// Whether branch `b` was canceled.
    pub open spec fn canceled(self, b: TeeBranch) -> bool {
        match b {
            TeeBranch::Branch1 => self.reason_1 is Some,
            TeeBranch::Branch2 => self.reason_2 is Some,
        }
    }

    /// The pull algorithm of `branch`: while a read runs, the branch asks for
    /// another; otherwise a read of the source starts, into the branch's BYOB
    /// request view when it has one (through a BYOB reader), else through a
    /// default reader.
    pub fn pull(&mut self, branch: TeeBranch, byob_view: Option<u64>, effects: &mut Vec<TeeEffect>)
        ensures
            old(self).reading ==> final(effects)@ == old(effects)@ && final(self).reading && (match branch {
                TeeBranch::Branch1 => final(self).read_again_for_branch_1 && final(self).read_again_for_branch_2
                    == old(self).read_again_for_branch_2,
                TeeBranch::Branch2 => final(self).read_again_for_branch_2 && final(self).read_again_for_branch_1
                    == old(self).read_again_for_branch_1,
            }) && final(self).reader_is_byob == old(self).reader_is_byob,
            !old(self).reading ==> final(self).reading && final(effects)@ == old(effects)@ + read_effects(
                *old(self),
                branch,
                byob_view,
            ) && final(self).reader_is_byob == (byob_view is Some) && final(self).read_again_for_branch_1
                == old(self).read_again_for_branch_1 && final(self).read_again_for_branch_2 == old(self).read_again_for_branch_2,
            final(self).reason_1 == old(self).reason_1,
            final(self).reason_2 == old(self).reason_2,
    {
        if self.reading {
            match branch {
                TeeBranch::Branch1 => self.read_again_for_branch_1 = true,
                TeeBranch::Branch2 => self.read_again_for_branch_2 = true,
            }
            return;
        }
        self.reading = true;
        let ghost e0 = effects@;
        match byob_view {
            Option::None => {
                if self.reader_is_byob {
                    effects.push(TeeEffect::SwitchToDefaultReader);
                    self.reader_is_byob = false;
                }
                effects.push(TeeEffect::ReadSource);
            },
            Option::Some(v) => {
                if !self.reader_is_byob {
                    effects.push(TeeEffect::SwitchToByobReader);
                    self.reader_is_byob = true;
                }
                effects.push(TeeEffect::ReadSourceInto { branch, view: v });
            },
        }
        assert(effects@ =~= e0 + read_effects(*old(self), branch, byob_view));
    }

    /// Whether a chunk read through the default reader is cloned for branch 2.
    pub fn default_read_needs_clone(&self) -> (r: bool)
        ensures
            r == (self.reason_1 is None && self.reason_2 is None),
    {
        self.reason_1.is_none() && self.reason_2.is_none()
    }

    /// The chunk steps of a default read of the tee, in their microtask: with
    /// both branches open the chunk is cloned for branch 2 (a failed clone
    /// errors both branches and cancels the source); each open branch
    /// enqueues its chunk; then the host calls `finish_chunk`.
    pub fn default_chunk_steps(
        &mut self,
        chunk: u64,
        clone_result: Result<u64, Reason>,
        effects: &mut Vec<TeeEffect>,
    )
        ensures
            !final(self).read_again_for_branch_1 && !final(self).read_again_for_branch_2,
            final(self).reading == old(self).reading,
            final(self).reason_1 == old(self).reason_1,
            final(self).reason_2 == old(self).reason_2,
            final(self).reader_is_byob == old(self).reader_is_byob,
            old(self).reason_1 is None && old(self).reason_2 is None && clone_result is Err ==> final(effects)@
                == old(effects)@ + seq![
                TeeEffect::Error { branch: TeeBranch::Branch1, reason: clone_result->Err_0 },
                TeeEffect::Error { branch: TeeBranch::Branch2, reason: clone_result->Err_0 },
                TeeEffect::CancelSource { reason: clone_result->Err_0 },
            ],
            old(self).reason_1 is None && old(self).reason_2 is None && clone_result is Ok ==> final(effects)@
                == old(effects)@ + seq![
                TeeEffect::Enqueue { branch: TeeBranch::Branch1, chunk },
                TeeEffect::Enqueue { branch: TeeBranch::Branch2, chunk: clone_result->Ok_0 },
                TeeEffect::FinishChunk,
            ],
            !(old(self).reason_1 is None && old(self).reason_2 is None) ==> final(effects)@ == old(effects)@
                + (if old(self).reason_1 is None {
                seq![TeeEffect::Enqueue { branch: TeeBranch::Branch1, chunk }]
            } else {
                seq![]
            }) + (if old(self).reason_2 is None {
                seq![TeeEffect::Enqueue { branch: TeeBranch::Branch2, chunk }]
            } else {
                seq![]
            }) + seq![TeeEffect::FinishChunk],
    {
        self.read_again_for_branch_1 = false;
        self.read_again_for_branch_2 = false;
        let mut chunk_2 = chunk;
        if self.reason_1.is_none() && self.reason_2.is_none() {
            match clone_result {
                Err(e) => {
                    effects.push(TeeEffect::Error { branch: TeeBranch::Branch1, reason: e });
                    effects.push(TeeEffect::Error { branch: TeeBranch::Branch2, reason: e });
                    effects.push(TeeEffect::CancelSource { reason: e });
                    return;
                },
                Ok(c) => {
                    chunk_2 = c;
                },
            }
        }
        let ghost e0 = effects@;
        if self.reason_1.is_none() {
            effects.push(TeeEffect::Enqueue { branch: TeeBranch::Branch1, chunk });
        }
        let ghost e1 = effects@;
        if self.reason_2.is_none() {
            effects.push(TeeEffect::Enqueue { branch: TeeBranch::Branch2, chunk: chunk_2 });
        }
        effects.push(TeeEffect::FinishChunk);
        proof {
            if old(self).reason_1 is None && old(self).reason_2 is None {
                assert(effects@ =~= old(effects)@ + seq![
                    TeeEffect::Enqueue { branch: TeeBranch::Branch1, chunk },
                    TeeEffect::Enqueue { branch: TeeBranch::Branch2, chunk: clone_result->Ok_0 },
                    TeeEffect::FinishChunk,
                ]);
            } else {
                assert(effects@ =~= old(effects)@ + (if old(self).reason_1 is None {
                    seq![TeeEffect::Enqueue { branch: TeeBranch::Branch1, chunk }]
                } else {
                    seq![]
                }) + (if old(self).reason_2 is None {
                    seq![TeeEffect::Enqueue { branch: TeeBranch::Branch2, chunk }]
                } else {
                    seq![]
                }) + seq![TeeEffect::FinishChunk]);
            }
        }
    }

    /// The end of the chunk steps: the read is over, and the branch that asked
    /// for another read meanwhile (branch 1 first) pulls again.
    pub fn finish_chunk(&mut self, effects: &mut Vec<TeeEffect>)
        ensures
            !final(self).reading,
            final(self).read_again_for_branch_1 == old(self).read_again_for_branch_1,
            final(self).read_again_for_branch_2 == old(self).read_again_for_branch_2,
            final(self).reason_1 == old(self).reason_1,
            final(self).reason_2 == old(self).reason_2,
            final(self).reader_is_byob == old(self).reader_is_byob,
            final(effects)@ == old(effects)@ + (if old(self).read_again_for_branch_1 {
                seq![TeeEffect::PullBranch { branch: TeeBranch::Branch1 }]
            } else if old(self).read_again_for_branch_2 {
                seq![TeeEffect::PullBranch { branch: TeeBranch::Branch2 }]
            } else {
                seq![]
            }),
    {
        self.reading = false;
        if self.read_again_for_branch_1 {
            effects.push(TeeEffect::PullBranch { branch: TeeBranch::Branch1 });
        } else if self.read_again_for_branch_2 {
            effects.push(TeeEffect::PullBranch { branch: TeeBranch::Branch2 });
        }
        assert(effects@ =~= old(effects)@ + (if old(self).read_again_for_branch_1 {
            seq![TeeEffect::PullBranch { branch: TeeBranch::Branch1 }]
        } else if old(self).read_again_for_branch_2 {
            seq![TeeEffect::PullBranch { branch: TeeBranch::Branch2 }]
        } else {
            seq![]
        }));
    }

    /// The close steps of a default read of the tee: open branches close,
    /// branches whose controllers (`controller_1`, `controller_2`) have
    /// pending pull-intos are responded to with 0 bytes, and while one branch
    /// is open the cancel promise resolves.
    pub fn default_close_steps(
        &mut self,
        controller_1: &ReadableStreamByteController,
        controller_2: &ReadableStreamByteController,
        effects: &mut Vec<TeeEffect>,
    )
        ensures
            *final(self) == (ReadableByteStreamTee { reading: false, ..*old(self) }),
            final(effects)@ == old(effects)@ + (if old(self).reason_1 is None {
                seq![TeeEffect::Close { branch: TeeBranch::Branch1 }]
            } else {
                seq![]
            }) + (if old(self).reason_2 is None {
                seq![TeeEffect::Close { branch: TeeBranch::Branch2 }]
            } else {
                seq![]
            }) + (if controller_1.pending_pull_intos@.len() > 0 {
                seq![TeeEffect::RespondZero { branch: TeeBranch::Branch1 }]
            } else {
                seq![]
            }) + (if controller_2.pending_pull_intos@.len() > 0 {
                seq![TeeEffect::RespondZero { branch: TeeBranch::Branch2 }]
            } else {
                seq![]
            }) + (if old(self).reason_1 is None || old(self).reason_2 is None {
                seq![TeeEffect::ResolveCancelPromise]
            } else {
                seq![]
            }),
    {
        let pending_1 = controller_1.pending_pull_intos.len() > 0;
        let pending_2 = controller_2.pending_pull_intos.len() > 0;
        self.reading = false;
        let ghost e0 = effects@;
        if self.reason_1.is_none() {
            effects.push(TeeEffect::Close { branch: TeeBranch::Branch1 });
        }
        let ghost e1 = effects@;
        if self.reason_2.is_none() {
            effects.push(TeeEffect::Close { branch: TeeBranch::Branch2 });
        }
        let ghost e2 = effects@;
        if pending_1 {
            effects.push(TeeEffect::RespondZero { branch: TeeBranch::Branch1 });
        }
        let ghost e3 = effects@;
        if pending_2 {
            effects.push(TeeEffect::RespondZero { branch: TeeBranch::Branch2 });
        }
        let ghost e4 = effects@;
        if self.reason_1.is_none() || self.reason_2.is_none() {
            effects.push(TeeEffect::ResolveCancelPromise);
        }
        assert(effects@ =~= old(effects)@ + (if old(self).reason_1 is None {
            seq![TeeEffect::Close { branch: TeeBranch::Branch1 }]
        } else {
            seq![]
        }) + (if old(self).reason_2 is None {
            seq![TeeEffect::Close { branch: TeeBranch::Branch2 }]
        } else {
            seq![]
        }) + (if controller_1.pending_pull_intos@.len() > 0 {
            seq![TeeEffect::RespondZero { branch: TeeBranch::Branch1 }]
        } else {
            seq![]
        }) + (if controller_2.pending_pull_intos@.len() > 0 {
            seq![TeeEffect::RespondZero { branch: TeeBranch::Branch2 }]
        } else {
            seq![]
        }) + (if old(self).reason_1 is None || old(self).reason_2 is None {
            seq![TeeEffect::ResolveCancelPromise]
        } else {
            seq![]
        }));
    }

    /// The error steps of any read of the tee: the read is over.
    pub fn error_steps(&mut self)
        ensures
            *final(self) == (ReadableByteStreamTee { reading: false, ..*old(self) }),
    {
        self.reading = false;
    }

    /// Whether a chunk read into the BYOB request of `byob_branch` is cloned
    /// for the other branch.
    pub fn byob_read_needs_clone(&self, byob_branch: TeeBranch) -> (r: bool)
        ensures
            r == !self.canceled(other_branch(byob_branch)),
    {
        match byob_branch {
            TeeBranch::Branch1 => self.reason_2.is_none(),
            TeeBranch::Branch2 => self.reason_1.is_none(),
        }
    }

    /// The chunk steps of a BYOB read of the tee for `byob_branch`, in their
    /// microtask: the other branch, when open, gets a clone (a failed clone
    /// errors both branches and cancels the source); the BYOB branch, when
    /// open, is responded to with the chunk itself; then the host calls
    /// `finish_chunk`.
    pub fn byob_chunk_steps(
        &mut self,
        byob_branch: TeeBranch,
        chunk: u64,
        clone_result: Result<u64, Reason>,
        effects: &mut Vec<TeeEffect>,
    )
        ensures
            !final(self).read_again_for_branch_1 && !final(self).read_again_for_branch_2,
            final(self).reading == old(self).reading,
            final(self).reason_1 == old(self).reason_1,
            final(self).reason_2 == old(self).reason_2,
            final(self).reader_is_byob == old(self).reader_is_byob,
            ({
                let other = other_branch(byob_branch);
                let byob_canceled = old(self).canceled(byob_branch);
                let other_canceled = old(self).canceled(other);
                &&& !other_canceled && clone_result is Err ==> final(effects)@ == old(effects)@ + seq![
                    TeeEffect::Error { branch: byob_branch, reason: clone_result->Err_0 },
                    TeeEffect::Error { branch: other, reason: clone_result->Err_0 },
                    TeeEffect::CancelSource { reason: clone_result->Err_0 },
                ]
                &&& !other_canceled && clone_result is Ok ==> final(effects)@ == old(effects)@ + (if !byob_canceled {
                    seq![TeeEffect::RespondWithNewView { branch: byob_branch, chunk }]
                } else {
                    seq![]
                }) + seq![
                    TeeEffect::Enqueue { branch: other, chunk: clone_result->Ok_0 },
                    TeeEffect::FinishChunk,
                ]
                &&& other_canceled ==> final(effects)@ == old(effects)@ + (if !byob_canceled {
                    seq![TeeEffect::RespondWithNewView { branch: byob_branch, chunk }]
                } else {
                    seq![]
                }) + seq![TeeEffect::FinishChunk]
            }),
    {
        self.read_again_for_branch_1 = false;
        self.read_again_for_branch_2 = false;
        let (byob_canceled, other_canceled, other) = match byob_branch {
            TeeBranch::Branch1 => (self.reason_1.is_some(), self.reason_2.is_some(), TeeBranch::Branch2),
            TeeBranch::Branch2 => (self.reason_2.is_some(), self.reason_1.is_some(), TeeBranch::Branch1),
        };
        let ghost e0 = effects@;
        if !other_canceled {
            match clone_result {
                Err(e) => {
                    effects.push(TeeEffect::Error { branch: byob_branch, reason: e });
                    effects.push(TeeEffect::Error { branch: other, reason: e });
                    effects.push(TeeEffect::CancelSource { reason: e });
                    return;
                },
                Ok(cloned) => {
                    if !byob_canceled {
                        effects.push(TeeEffect::RespondWithNewView { branch: byob_branch, chunk });
                    }
                    effects.push(TeeEffect::Enqueue { branch: other, chunk: cloned });
                },
            }
        } else if !byob_canceled {
            effects.push(TeeEffect::RespondWithNewView { branch: byob_branch, chunk });
        }
        effects.push(TeeEffect::FinishChunk);
        proof {
            if !other_canceled {
                assert(effects@ =~= old(effects)@ + (if !byob_canceled {
                    seq![TeeEffect::RespondWithNewView { branch: byob_branch, chunk }]
                } else {
                    seq![]
                }) + seq![
                    TeeEffect::Enqueue { branch: other, chunk: clone_result->Ok_0 },
                    TeeEffect::FinishChunk,
                ]);
            } else {
                assert(effects@ =~= old(effects)@ + (if !byob_canceled {
                    seq![TeeEffect::RespondWithNewView { branch: byob_branch, chunk }]
                } else {
                    seq![]
                }) + seq![TeeEffect::FinishChunk]);
            }
        }
    }

    /// The close steps of a BYOB read of the tee for `byob_branch`: open
    /// branches close; a final chunk answers the open BYOB branch, and the
    /// other open branch, when its controller (`other_controller`) has
    /// pending pull-intos, is responded to with 0 bytes; while one branch is
    /// open the cancel promise resolves.
    pub fn byob_close_steps(
        &mut self,
        byob_branch: TeeBranch,
        chunk: Option<u64>,
        other_controller: &ReadableStreamByteController,
        effects: &mut Vec<TeeEffect>,
    )
        ensures
            *final(self) == (ReadableByteStreamTee { reading: false, ..*old(self) }),
            ({
                let other = other_branch(byob_branch);
                let byob_canceled = old(self).canceled(byob_branch);
                let other_canceled = old(self).canceled(other);
                final(effects)@ == old(effects)@ + (if !byob_canceled {
                    seq![TeeEffect::Close { branch: byob_branch }]
                } else {
                    seq![]
                }) + (if !other_canceled {
                    seq![TeeEffect::Close { branch: other }]
                } else {
                    seq![]
                }) + (if chunk is Some && !byob_canceled {
                    seq![TeeEffect::RespondWithNewView { branch: byob_branch, chunk: chunk->Some_0 }]
                } else {
                    seq![]
                }) + (if chunk is Some && !other_canceled && other_controller.pending_pull_intos@.len() > 0 {
                    seq![TeeEffect::RespondZero { branch: other }]
                } else {
                    seq![]
                }) + (if !byob_canceled || !other_canceled {
                    seq![TeeEffect::ResolveCancelPromise]
                } else {
                    seq![]
                })
            }),
    {
        let other_pending = other_controller.pending_pull_intos.len() > 0;
        self.reading = false;
        let (byob_canceled, other_canceled, other) = match byob_branch {
            TeeBranch::Branch1 => (self.reason_1.is_some(), self.reason_2.is_some(), TeeBranch::Branch2),
            TeeBranch::Branch2 => (self.reason_2.is_some(), self.reason_1.is_some(), TeeBranch::Branch1),
        };
        let ghost e0 = effects@;
        if !byob_canceled {
            effects.push(TeeEffect::Close { branch: byob_branch });
        }
        let ghost e1 = effects@;
        if !other_canceled {
            effects.push(TeeEffect::Close { branch: other });
        }
        let ghost e2 = effects@;
        let mut responded_new = false;
        let mut responded_zero = false;
        if let Option::Some(c) = chunk {
            if !byob_canceled {
                effects.push(TeeEffect::RespondWithNewView { branch: byob_branch, chunk: c });
                responded_new = true;
            }
            if !other_canceled && other_pending {
                effects.push(TeeEffect::RespondZero { branch: other });
                responded_zero = true;
            }
        }
        let ghost e3 = effects@;
        if !byob_canceled || !other_canceled {
            effects.push(TeeEffect::ResolveCancelPromise);
        }
        assert(effects@ =~= old(effects)@ + (if !byob_canceled {
            seq![TeeEffect::Close { branch: byob_branch }]
        } else {
            seq![]
        }) + (if !other_canceled {
            seq![TeeEffect::Close { branch: other }]
        } else {
            seq![]
        }) + (if chunk is Some && !byob_canceled {
            seq![TeeEffect::RespondWithNewView { branch: byob_branch, chunk: chunk->Some_0 }]
        } else {
            seq![]
        }) + (if chunk is Some && !other_canceled && other_controller.pending_pull_intos@.len() > 0 {
            seq![TeeEffect::RespondZero { branch: other }]
        } else {
            seq![]
        }) + (if !byob_canceled || !other_canceled {
            seq![TeeEffect::ResolveCancelPromise]
        } else {
            seq![]
        }));
    }

    /// The cancel algorithm of `branch` with `reason`: once both branches are
    /// canceled, the source is canceled with both reasons in branch order.
    pub fn cancel(&mut self, branch: TeeBranch, reason: u64, effects: &mut Vec<TeeEffect>)
        requires
            !old(self).canceled(branch),
        ensures
            final(self).canceled(branch),
            final(self).reading == old(self).reading,
            final(self).reader_is_byob == old(self).reader_is_byob,
            final(self).read_again_for_branch_1 == old(self).read_again_for_branch_1,
            final(self).read_again_for_branch_2 == old(self).read_again_for_branch_2,
            branch == TeeBranch::Branch1 ==> final(self).reason_1 == Some(reason) && final(self).reason_2 == old(self).reason_2,
            branch == TeeBranch::Branch2 ==> final(self).reason_2 == Some(reason) && final(self).reason_1 == old(self).reason_1,
            !old(self).canceled(other_branch(branch)) ==> final(effects)@ == old(effects)@,
            old(self).canceled(other_branch(branch)) ==> final(effects)@ == old(effects)@.push(
                TeeEffect::CancelSource {
                    reason: match branch {
                        TeeBranch::Branch1 => Reason::Pair(reason, old(self).reason_2->Some_0),
                        TeeBranch::Branch2 => Reason::Pair(old(self).reason_1->Some_0, reason),
                    },
                },
            ),
    {
        match branch {
            TeeBranch::Branch1 => {
                self.reason_1 = Option::Some(reason);
                if let Option::Some(r2) = self.reason_2 {
                    effects.push(TeeEffect::CancelSource { reason: Reason::Pair(reason, r2) });
                }
            },
            TeeBranch::Branch2 => {
                self.reason_2 = Option::Some(reason);
                if let Option::Some(r1) = self.reason_1 {
                    effects.push(TeeEffect::CancelSource { reason: Reason::Pair(r1, reason) });
                }
            },
        }
    }

    /// forwardReaderError, upon rejection of a reader's closed promise with
    /// `r`: for the tee's current reader (`current`), both branches are
    /// errored and while one branch is open the cancel promise resolves.
    pub fn forward_reader_error(&self, current: bool, r: Reason, effects: &mut Vec<TeeEffect>)
        ensures
            !current ==> final(effects)@ == old(effects)@,
            current ==> final(effects)@ == old(effects)@ + seq![
                TeeEffect::Error { branch: TeeBranch::Branch1, reason: r },
                TeeEffect::Error { branch: TeeBranch::Branch2, reason: r },
            ] + (if self.reason_1 is None || self.reason_2 is None {
                seq![TeeEffect::ResolveCancelPromise]
            } else {
                seq![]
            }),
    {
        if !current {
            return;
        }
        effects.push(TeeEffect::Error { branch: TeeBranch::Branch1, reason: r });
        effects.push(TeeEffect::Error { branch: TeeBranch::Branch2, reason: r });
        if self.reason_1.is_none() || self.reason_2.is_none() {
            effects.push(TeeEffect::ResolveCancelPromise);
        }
        assert(effects@ =~= old(effects)@ + seq![
            TeeEffect::Error { branch: TeeBranch::Branch1, reason: r },
            TeeEffect::Error { branch: TeeBranch::Branch2, reason: r },
        ] + (if self.reason_1 is None || self.reason_2 is None {
            seq![TeeEffect::ResolveCancelPromise]
        } else {
            seq![]
        }));
    }
}

} // verus!
