//! Detaching a container: which interfaces to remove, and the session that
//! removes them one by one.

use vstd::prelude::*;
use crate::types::{spec_find, CoreError, Event, NetworkOptions};

verus! {

/// The position, at or after `from`, of the first described network that has
/// no attachment parameters.
pub open spec fn first_unknown(opts: NetworkOptions, from: int) -> Option<int>
    decreases opts.network_info@.len() - from,
{
    if from < 0 || from >= opts.network_info@.len() {
        None
    } else if spec_find(opts.networks@, opts.network_info@[from].0@, 0) is None {
        Some(from)
    } else {
        first_unknown(opts, from + 1)
    }
}

/// The interfaces that a detachment removes: the container interface of every
/// entry of the attachment parameters, in their order, whether or not the
/// network of the entry is described.
pub open spec fn interfaces_of(opts: NetworkOptions) -> Seq<String> {
    Seq::new(opts.networks@.len(), |k: int| opts.networks@[k].1.interface_name)
}

/// The operation a detachment asks its caller to perform.
#[derive(Clone, Copy, Debug, PartialEq, Eq, Structural)]
pub enum DetachAction {
    /// Open the namespace file and dedicate a new thread to the namespace,
    /// for the removal of the interface at this position of the session's
    /// list. If the file cannot be opened, no thread is started.
    EnterNamespace { index: usize },
    /// In the namespace, on the thread that entered it: remove the interface
    /// at this position of the session's list.
    Remove { index: usize },
    /// Nothing: the session is finished.
    Finish,
}

/// One detachment under way: the interfaces to remove from the namespace, how
/// many of them are gone, whether the namespace is entered for the next, and
/// the failure that stopped it, if any.
#[derive(Clone, Debug, PartialEq, Eq)]
pub struct DetachSession {
    pub netns: String,
    pub interfaces: Vec<String>,
    pub removed: usize,
    pub entered: bool,
    pub failure: Option<CoreError>,
}

impl DetachSession {
    /// No more interfaces are gone than there are, and their number is one
    /// that a list can hold.
    pub open spec fn wf(&self) -> bool {
        self.removed <= self.interfaces@.len() <= usize::MAX
    }

    /// A removal is still to be made.
    pub open spec fn active(&self) -> bool {
        self.failure is None && self.removed < self.interfaces@.len()
    }

    /// The session removes the interfaces of `opts` from `netns`, and has
    /// done nothing yet.
    pub open spec fn is_start_of(&self, opts: NetworkOptions, netns: Seq<char>) -> bool {
        &&& self.netns@ == netns
        &&& self.interfaces@ == interfaces_of(opts)
        &&& self.removed == 0
        &&& !self.entered
        &&& self.failure is None
    }

    /// The operation that the session asks for. While an interface is left
    /// and nothing has failed: the entering of the namespace for the next
    /// interface, and once it is entered, the removal of that interface.
    pub open spec fn spec_action(&self) -> DetachAction {
        if !self.active() {
            DetachAction::Finish
        } else if self.entered {
            DetachAction::Remove { index: self.removed }
        } else {
            DetachAction::EnterNamespace { index: self.removed }
        }
    }

    /// The error that a failure of the pending operation stands for: the
    /// death of the worker in any case; else the namespace that could not be
    /// opened, or the interface that could not be removed.
    pub open spec fn failure_of(&self, cause: String, died: bool) -> CoreError {
        if died {
            CoreError::WorkerFailed { netns: self.netns, cause }
        } else if self.entered {
            CoreError::Remove {
                ifname: self.interfaces@[self.removed as int],
                netns: self.netns,
                cause,
            }
        } else {
            CoreError::NamespaceOpen { netns: self.netns, cause }
        }
    }

    /// The session after the given outcome of the pending operation. An
    /// entering that succeeds leads to the removal, a removal that succeeds
    /// to the next interface. A failure stops the session with its error; no
    /// further operation is asked for.
    pub open spec fn spec_advance(self, event: Event) -> DetachSession {
        if !self.active() {
            self
        } else {
            match event {
                Event::Completed(_) => if self.entered {
                    DetachSession { removed: (self.removed + 1) as usize, entered: false, ..self }
                } else {
                    DetachSession { entered: true, ..self }
                },
                Event::Failed(cause) => DetachSession {
                    failure: Some(self.failure_of(cause, false)),
                    ..self
                },
                Event::WorkerDied(cause) => DetachSession {
                    failure: Some(self.failure_of(cause, true)),
                    ..self
                },
            }
        }
    }

    /// The result of a finished session. A session with a removal still to
    /// make has none.
    pub open spec fn spec_result(&self) -> Option<Result<(), CoreError>> {
        match self.failure {
            Some(e) => Some(Err(e)),
            None => if self.removed < self.interfaces@.len() {
                None
            } else {
                Some(Ok(()))
            },
        }
    }

    /// The operation to perform next.
    #[verifier::when_used_as_spec(spec_action)]
    pub fn action(&self) -> (r: DetachAction)
        ensures
            r == self.spec_action(),
    {
        if !(self.failure.is_none() && self.removed < self.interfaces.len()) {
            DetachAction::Finish
        } else if self.entered {
            DetachAction::Remove { index: self.removed }
        } else {
            DetachAction::EnterNamespace { index: self.removed }
        }
    }

    /// The name of the interface whose removal is pending, if any.
    pub fn pending_interface(&self) -> (r: Option<&String>)
        ensures
            r == (if self.active() {
                Some(&self.interfaces@[self.removed as int])
            } else {
                None::<&String>
            }),
    {
        if self.failure.is_none() && self.removed < self.interfaces.len() {
            Some(&self.interfaces[self.removed])
        } else {
            None
        }
    }

    /// Takes the outcome of the operation that `action` named.
    #[verifier::when_used_as_spec(spec_advance)]
    pub fn advance(self, event: Event) -> (next: DetachSession)
        ensures
            next == self.spec_advance(event),
            self.wf() ==> next.wf(),
    {
        if !(self.failure.is_none() && self.removed < self.interfaces.len()) {
            return self;
        }
        let failure: Option<CoreError> = match event {
            Event::Completed(_) => None,
            Event::WorkerDied(cause) => Some(
                CoreError::WorkerFailed { netns: self.netns.clone(), cause },
            ),
            Event::Failed(cause) => if self.entered {
                Some(
                    CoreError::Remove {
                        ifname: self.interfaces[self.removed].clone(),
                        netns: self.netns.clone(),
                        cause,
                    },
                )
            } else {
                Some(CoreError::NamespaceOpen { netns: self.netns.clone(), cause })
            },
        };
        let DetachSession { netns, interfaces, removed, entered, failure: _ } = self;
        match failure {
            Some(e) => DetachSession { netns, interfaces, removed, entered, failure: Some(e) },
            None => if entered {
                DetachSession {
                    netns,
                    interfaces,
                    removed: removed + 1,
                    entered: false,
                    failure: None,
                }
            } else {
                DetachSession { netns, interfaces, removed, entered: true, failure: None }
            },
        }
    }

    /// The final result, once the session is finished.
    pub fn into_result(self) -> (r: Option<Result<(), CoreError>>)
        ensures
            r == self.spec_result(),
    {
        let done: bool = self.removed >= self.interfaces.len();
        match self.failure {
            Some(e) => Some(Err(e)),
            None => if done {
                Some(Ok(()))
            } else {
                None
            },
        }
    }
}

} // verus!
