//! The shared state of the two branches of a teed default stream: one read of
//! the source at a time, each chunk handed to every branch not canceled, and
//! the source canceled once both branches are.
use vstd::prelude::*;
use crate::effect::Reason;

verus! {

/// One of the two branches of a tee.
#[derive(Clone, Copy, PartialEq, Eq, Structural, Debug)]
pub enum TeeBranch {
    Branch1,
    Branch2,
}

/// A piece of outside work a step of a tee hands to its host, in order.
#[derive(Clone, Copy, PartialEq, Eq, Structural, Debug)]
pub enum TeeEffect {
    /// Read from the source through the tee's reader, with the tee's read request.
    ReadSource,
    /// ReadableStreamDefaultControllerEnqueue on the branch's controller.
    Enqueue { branch: TeeBranch, chunk: u64 },
    /// ReadableStreamDefaultControllerClose on the branch's controller.
    Close { branch: TeeBranch },
    /// ReadableStreamDefaultControllerError on the branch's controller.
    Error { branch: TeeBranch, reason: Reason },
    /// ReadableStreamCancel on the source with the reason, and resolve the
    /// cancel promise with its result.
    CancelSource { reason: Reason },
    /// Resolve the cancel promise with undefined.
    ResolveCancelPromise,
    /// The branches have taken the chunk: call `finish_chunk`.
    FinishChunk,
    /// Release the tee's BYOB reader and acquire a default reader of the
    /// source (`reader::switch_reader`), and forward that reader's errors to
    /// the branches.
    SwitchToDefaultReader,
    /// Release the tee's default reader and acquire a BYOB reader of the
    /// source (`reader::switch_reader`), and forward that reader's errors to
    /// the branches.
    SwitchToByobReader,
    /// Read from the source through the tee's BYOB reader into the view
    /// `view` (of the branch's BYOB request), with `min` 1.
    ReadSourceInto { branch: TeeBranch, view: u64 },
    /// ReadableByteStreamControllerRespond(branch controller, 0).
    RespondZero { branch: TeeBranch },
    /// ReadableByteStreamControllerRespondWithNewView(branch controller, chunk).
    RespondWithNewView { branch: TeeBranch, chunk: u64 },
    /// Perform the pull algorithm of the branch.
    PullBranch { branch: TeeBranch },
}

/// The state shared by the pull and cancel algorithms of the two branches of
/// ReadableStreamDefaultTee.
#[derive(Clone, Copy, PartialEq, Eq, Structural, Debug)]
pub struct ReadableStreamDefaultTee {
    pub reading: bool,
    pub read_again: bool,
    pub reason_1: Option<u64>,
    pub reason_2: Option<u64>,
    pub clone_for_branch_2: bool,
}

/// What the pull algorithm of a branch resolves to: always undefined.
#[derive(Clone, Copy, PartialEq, Eq, Structural, Debug)]
pub enum TeePull {
    /// A read is running; another one follows it.
    ReadAgainLater,
    /// A read of the source was started.
    Read,
}

/// Enqueue effects for the branches not canceled.
pub open spec fn enqueue_effects(tee: ReadableStreamDefaultTee, chunk_1: u64, chunk_2: u64) -> Seq<TeeEffect> {
    (if tee.reason_1 is None {
        seq![TeeEffect::Enqueue { branch: TeeBranch::Branch1, chunk: chunk_1 }]
    } else {
        seq![]
    }) + (if tee.reason_2 is None {
        seq![TeeEffect::Enqueue { branch: TeeBranch::Branch2, chunk: chunk_2 }]
    } else {
        seq![]
    })
}

/// The tee after branch 1 was canceled with `reason`.
pub open spec fn after_cancel_1(t: ReadableStreamDefaultTee, reason: u64) -> ReadableStreamDefaultTee {
    ReadableStreamDefaultTee { reason_1: Some(reason), ..t }
}

/// The tee after branch 2 was canceled with `reason`.
pub open spec fn after_cancel_2(t: ReadableStreamDefaultTee, reason: u64) -> ReadableStreamDefaultTee {
    ReadableStreamDefaultTee { reason_2: Some(reason), ..t }
}

/// The steps canceling branch 1 with `reason` hands to the host.
pub open spec fn cancel_1_effects(t: ReadableStreamDefaultTee, reason: u64) -> Seq<TeeEffect> {
    match t.reason_2 {
        Some(r2) => seq![TeeEffect::CancelSource { reason: Reason::Pair(reason, r2) }],
        None => seq![],
    }
}

/// The steps canceling branch 2 with `reason` hands to the host.
pub open spec fn cancel_2_effects(t: ReadableStreamDefaultTee, reason: u64) -> Seq<TeeEffect> {
    match t.reason_1 {
        Some(r1) => seq![TeeEffect::CancelSource { reason: Reason::Pair(r1, reason) }],
        None => seq![],
    }
}

impl ReadableStreamDefaultTee {
    /// The state right after ReadableStreamDefaultTee set it up.
    pub fn new(clone_for_branch_2: bool) -> (t: Self)
        ensures
            !t.reading && !t.read_again,
            t.reason_1 is None && t.reason_2 is None,
            t.clone_for_branch_2 == clone_for_branch_2,
    {
        ReadableStreamDefaultTee {
            reading: false,
            read_again: false,
            reason_1: Option::None,
            reason_2: Option::None,
            clone_for_branch_2,
        }
    }

    /// The pull algorithm of either branch: while a read runs, another is
    /// asked for; otherwise a read of the source starts.
    pub fn pull(&mut self, effects: &mut Vec<TeeEffect>) -> (r: TeePull)
        ensures
            old(self).reading ==> r == TeePull::ReadAgainLater && final(self).read_again && final(self).reading
                && final(effects)@ == old(effects)@,
            !old(self).reading ==> r == TeePull::Read && final(self).reading && final(self).read_again == old(self).read_again && final(effects)@ == old(effects)@.push(TeeEffect::ReadSource),
            final(self).reason_1 == old(self).reason_1,
            final(self).reason_2 == old(self).reason_2,
            final(self).clone_for_branch_2 == old(self).clone_for_branch_2,
    {
        if self.reading {
            self.read_again = true;
            return TeePull::ReadAgainLater;
        }
        self.reading = true;
        effects.push(TeeEffect::ReadSource);
        TeePull::Read
    }

    /// Whether the chunk must be cloned for branch 2 before it is handed out.
    pub fn needs_clone(&self) -> (r: bool)
        ensures
            r == (self.reason_2 is None && self.clone_for_branch_2),
    {
        self.reason_2.is_none() && self.clone_for_branch_2
    }

    /// The chunk steps of the tee's read request, in their microtask: the
    /// chunk goes to every branch not canceled (branch 2 gets the clone when
    /// one was asked for; a failed clone errors both branches and cancels the
    /// source). Once the branches took it, the host calls `finish_chunk`.
    pub fn chunk_steps(
        &mut self,
        chunk: u64,
        clone_result: Result<u64, Reason>,
        effects: &mut Vec<TeeEffect>,
    )
        ensures
            !final(self).read_again,
            final(self).reading == old(self).reading,
            final(self).reason_1 == old(self).reason_1,
            final(self).reason_2 == old(self).reason_2,
            final(self).clone_for_branch_2 == old(self).clone_for_branch_2,
            old(self).reason_2 is None && old(self).clone_for_branch_2 && clone_result is Err ==> final(effects)@
                == old(effects)@ + seq![
                TeeEffect::Error { branch: TeeBranch::Branch1, reason: clone_result->Err_0 },
                TeeEffect::Error { branch: TeeBranch::Branch2, reason: clone_result->Err_0 },
                TeeEffect::CancelSource { reason: clone_result->Err_0 },
            ],
            !(old(self).reason_2 is None && old(self).clone_for_branch_2 && clone_result is Err) ==> {
                let chunk_2 = if old(self).reason_2 is None && old(self).clone_for_branch_2 {
                    clone_result->Ok_0
                } else {
                    chunk
                };
                final(effects)@ == old(effects)@ + enqueue_effects(*old(self), chunk, chunk_2) + seq![
                    TeeEffect::FinishChunk,
                ]
            },
    {
        self.read_again = false;
        let mut chunk_2 = chunk;
        if self.reason_2.is_none() && self.clone_for_branch_2 {
            match clone_result {
                Err(e) => {
                    effects.push(TeeEffect::Error { branch: TeeBranch::Branch1, reason: e });
                    effects.push(TeeEffect::Error { branch: TeeBranch::Branch2, reason: e });
                    effects.push(TeeEffect::CancelSource { reason: e });
                    return;
                },
                Ok(c) => {
                    chunk_2 = c;
                },
            }
        }
        let ghost e0 = effects@;
        if self.reason_1.is_none() {
            effects.push(TeeEffect::Enqueue { branch: TeeBranch::Branch1, chunk });
        }
        if self.reason_2.is_none() {
            effects.push(TeeEffect::Enqueue { branch: TeeBranch::Branch2, chunk: chunk_2 });
        }
        assert(effects@ =~= e0 + enqueue_effects(*old(self), chunk, chunk_2));
        effects.push(TeeEffect::FinishChunk);
    }

    /// The end of the chunk steps: the read is over, and a read asked for
    /// while the branches took the chunk starts now.
    pub fn finish_chunk(&mut self, effects: &mut Vec<TeeEffect>)
        ensures
            old(self).read_again ==> final(self).reading && final(self).read_again && final(effects)@ == old(effects)@.push(TeeEffect::ReadSource),
            !old(self).read_again ==> !final(self).reading && !final(self).read_again && final(effects)@ == old(effects)@,
            final(self).reason_1 == old(self).reason_1,
            final(self).reason_2 == old(self).reason_2,
            final(self).clone_for_branch_2 == old(self).clone_for_branch_2,
    {
        self.reading = false;
        if self.read_again {
            let _ = self.pull(effects);
        }
    }

    /// The close steps of the tee's read request: branches not canceled are
    /// closed, and while one is not canceled the cancel promise resolves.
    pub fn close_steps(&mut self, effects: &mut Vec<TeeEffect>)
        ensures
            *final(self) == (ReadableStreamDefaultTee { reading: false, ..*old(self) }),
            final(effects)@ == old(effects)@ + (if old(self).reason_1 is None {
                seq![TeeEffect::Close { branch: TeeBranch::Branch1 }]
            } else {
                seq![]
            }) + (if old(self).reason_2 is None {
                seq![TeeEffect::Close { branch: TeeBranch::Branch2 }]
            } else {
                seq![]
            }) + (if old(self).reason_1 is None || old(self).reason_2 is None {
                seq![TeeEffect::ResolveCancelPromise]
            } else {
                seq![]
            }),
    {
        self.reading = false;
        let ghost e0 = effects@;
        if self.reason_1.is_none() {
            effects.push(TeeEffect::Close { branch: TeeBranch::Branch1 });
        }
        let ghost e1 = effects@;
        if self.reason_2.is_none() {
            effects.push(TeeEffect::Close { branch: TeeBranch::Branch2 });
        }
        let ghost e2 = effects@;
        if self.reason_1.is_none() || self.reason_2.is_none() {
            effects.push(TeeEffect::ResolveCancelPromise);
        }
        assert(effects@ =~= old(effects)@ + (if old(self).reason_1 is None {
            seq![TeeEffect::Close { branch: TeeBranch::Branch1 }]
        } else {
            seq![]
        }) + (if old(self).reason_2 is None {
            seq![TeeEffect::Close { branch: TeeBranch::Branch2 }]
        } else {
            seq![]
        }) + (if old(self).reason_1 is None || old(self).reason_2 is None {
            seq![TeeEffect::ResolveCancelPromise]
        } else {
            seq![]
        }));
    }

    /// The error steps of the tee's read request: the read is over.
    pub fn error_steps(&mut self)
        ensures
            *final(self) == (ReadableStreamDefaultTee { reading: false, ..*old(self) }),
    {
        self.reading = false;
    }

    /// The cancel algorithm of branch 1 with `reason`: once both branches are
    /// canceled, the source is canceled with both reasons.
    pub fn cancel_1(&mut self, reason: u64, effects: &mut Vec<TeeEffect>)
        requires
            old(self).reason_1 is None,
        ensures
            *final(self) == after_cancel_1(*old(self), reason),
            final(effects)@ == old(effects)@ + cancel_1_effects(*old(self), reason),
    {
        self.reason_1 = Option::Some(reason);
        if let Option::Some(r2) = self.reason_2 {
            effects.push(TeeEffect::CancelSource { reason: Reason::Pair(reason, r2) });
        }
        assert(effects@ =~= old(effects)@ + cancel_1_effects(*old(self), reason));
    }

    /// The cancel algorithm of branch 2 with `reason`: once both branches are
    /// canceled, the source is canceled with both reasons.
    pub fn cancel_2(&mut self, reason: u64, effects: &mut Vec<TeeEffect>)
        requires
            old(self).reason_2 is None,
        ensures
            *final(self) == after_cancel_2(*old(self), reason),
            final(effects)@ == old(effects)@ + cancel_2_effects(*old(self), reason),
    {
        self.reason_2 = Option::Some(reason);
        if let Option::Some(r1) = self.reason_1 {
            effects.push(TeeEffect::CancelSource { reason: Reason::Pair(r1, reason) });
        }
        assert(effects@ =~= old(effects)@ + cancel_2_effects(*old(self), reason));
    }

    /// Upon rejection of the tee reader's closed promise with `r`: both
    /// branches are errored, and while one is not canceled the cancel promise
    /// resolves.
    pub fn source_errored(&self, r: Reason, effects: &mut Vec<TeeEffect>)
        ensures
            final(effects)@ == old(effects)@ + seq![
                TeeEffect::Error { branch: TeeBranch::Branch1, reason: r },
                TeeEffect::Error { branch: TeeBranch::Branch2, reason: r },
            ] + (if self.reason_1 is None || self.reason_2 is None {
                seq![TeeEffect::ResolveCancelPromise]
            } else {
                seq![]
            }),
    {
        effects.push(TeeEffect::Error { branch: TeeBranch::Branch1, reason: r });
        effects.push(TeeEffect::Error { branch: TeeBranch::Branch2, reason: r });
        if self.reason_1.is_none() || self.reason_2.is_none() {
            effects.push(TeeEffect::ResolveCancelPromise);
        }
        assert(effects@ =~= old(effects)@ + seq![
            TeeEffect::Error { branch: TeeBranch::Branch1, reason: r },
            TeeEffect::Error { branch: TeeBranch::Branch2, reason: r },
        ] + (if self.reason_1 is None || self.reason_2 is None {
            seq![TeeEffect::ResolveCancelPromise]
        } else {
            seq![]
        }));
    }
}

} // verus!
