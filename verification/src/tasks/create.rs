//! Creation of a virtual interface.
//!
//! The kernel creates the interface and picks its kernel index, so a
//! creation runs in turns: the request goes to the kernel; once the kernel
//! has accepted it, its tables are fetched anew and the store is
//! synchronized with them; then the new interface is resolved by its name.
//! The decisions of each turn are taken here. Talking to the kernel is the
//! caller's part: it performs the action that a turn asks for and comes back
//! with the outcome.

use crate::arena::ARENA_LIMIT;
use crate::common::{IfLinkType, IfRoleType};
use crate::control::{sync_outcome, table_valid, IfControlError, IfControlMgr, IfKernelTable};
use crate::key::IfKey;
use crate::reconcile::{kept, reconciled, stands};
use crate::store::IfStore;
use std::time::SystemTime;
use vstd::prelude::*;

verus! {

/// Message of the error for an interface name without characters.
pub const EMPTY_NAME: &'static str = "interface name is empty";

/// Message of the error for a kind of device that cannot be created.
pub const UNSUPPORTED_KIND: &'static str = "this kind of interface cannot be created";

/// Message of the error for an outcome that the creation was not waiting
/// for.
pub const OUT_OF_TURN: &'static str = "outcome does not belong to this turn of the creation";

/// Where a creation stands.
#[derive(Debug, PartialEq, Eq)]
pub enum IfCreateTask {
    /// The request is with the kernel.
    Requesting { kind: IfLinkType, name: String },
    /// The kernel has created the interface; its tables are being fetched.
    Syncing { kind: IfLinkType, name: String },
    /// The creation is over.
    Finished,
}

/// What came of the action that the last turn asked for.
#[derive(Debug)]
pub enum IfCreateEvent {
    /// The kernel's answer to the request: its acceptance, or the message of
    /// its refusal.
    Requested(Result<(), String>),
    /// The kernel's tables, or why they could not be had, and the time of
    /// the fetch.
    Fetched(Result<IfKernelTable, IfControlError>, SystemTime),
}

/// What the caller has to do next.
#[derive(Debug)]
pub enum IfCreateAction {
    /// Ask the kernel to create an interface of this kind with this name.
    Request { kind: IfLinkType, name: String },
    /// Fetch the kernel's interface and address tables.
    Fetch,
    /// Hand this result to whoever asked for the creation.
    Return(Result<IfKey, IfControlError>),
}

/// The kinds of device that a creation can ask the kernel for.
pub open spec fn creatable(kind: IfLinkType) -> bool {
    kind is Dummy
}

impl IfControlMgr {
    /// Begins the creation of a virtual interface of kind `kind` named
    /// `name`. Nothing is changed yet.
    ///
    /// An empty name and a kind that cannot be created end the creation at
    /// once with `Invalid`; otherwise the request is to be sent.
    pub fn create_virtual(&self, kind: IfLinkType, name: &str) -> (r: (IfCreateTask, IfCreateAction))
        ensures
            if name@.len() == 0 {
                &&& r.0 is Finished
                &&& r.1 matches IfCreateAction::Return(Err(IfControlError::Invalid(m)))
                &&& m@ == EMPTY_NAME@
            } else if !creatable(kind) {
                &&& r.0 is Finished
                &&& r.1 matches IfCreateAction::Return(Err(IfControlError::Invalid(m)))
                &&& m@ == UNSUPPORTED_KIND@
            } else {
                &&& r.0 matches IfCreateTask::Requesting { kind: k, name: n }
                &&& k == kind && n@ == name@
                &&& r.1 matches IfCreateAction::Request { kind: k, name: n }
                &&& k == kind && n@ == name@
            },
    {
        if name.is_empty() {
            return (
                IfCreateTask::Finished,
                IfCreateAction::Return(Err(IfControlError::Invalid(EMPTY_NAME.to_owned()))),
            );
        }
        match kind {
            IfLinkType::Dummy => (
                IfCreateTask::Requesting { kind, name: name.to_owned() },
                IfCreateAction::Request { kind, name: name.to_owned() },
            ),
            _ => (
                IfCreateTask::Finished,
                IfCreateAction::Return(Err(IfControlError::Invalid(UNSUPPORTED_KIND.to_owned()))),
            ),
        }
    }

    /// Begins the creation of a dummy interface named `name`.
    pub fn create_dummy(&self, name: &str) -> (r: (IfCreateTask, IfCreateAction))
        ensures
            if name@.len() == 0 {
                &&& r.0 is Finished
                &&& r.1 matches IfCreateAction::Return(Err(IfControlError::Invalid(m)))
                &&& m@ == EMPTY_NAME@
            } else {
                &&& r.0 matches IfCreateTask::Requesting { kind: k, name: n }
                &&& k == IfLinkType::Dummy && n@ == name@
                &&& r.1 matches IfCreateAction::Request { kind: k, name: n }
                &&& k == IfLinkType::Dummy && n@ == name@
            },
    {
        self.create_virtual(IfLinkType::Dummy, name)
    }

    /// Takes the next turn of the creation `task`, given the outcome `event`
    /// of the action that the turn before asked for.
    ///
    /// - While the request is with the kernel: its refusal ends the creation
    ///   with `Netlink` and the kernel's message, its acceptance asks for the
    ///   tables. The store is as it was.
    /// - While the tables are being fetched: the store is synchronized with
    ///   what was fetched. Where that fails, the creation ends with that
    ///   error; where it succeeds, the creation ends with the handle that
    ///   the store has for the name, or with `NotFound`.
    /// - An outcome that the creation was not waiting for ends it with
    ///   `Invalid`. The store is as it was.
    pub fn create_step(&mut self, task: IfCreateTask, event: IfCreateEvent) -> (r: (
        IfCreateTask,
        IfCreateAction,
    ))
        requires
            old(self).store.wf(),
        ensures
            final(self).store.wf(),
            create_turn(old(self).store, task, event, final(self).store, r.0, r.1),
    {
        match (task, event) {
            (IfCreateTask::Requesting { kind, name }, IfCreateEvent::Requested(Ok(_))) => (
                IfCreateTask::Syncing { kind, name },
                IfCreateAction::Fetch,
            ),
            (IfCreateTask::Requesting { .. }, IfCreateEvent::Requested(Err(message))) => (
                IfCreateTask::Finished,
                IfCreateAction::Return(Err(IfControlError::Netlink(message))),
            ),
            (IfCreateTask::Syncing { name, .. }, IfCreateEvent::Fetched(fetched, now)) => {
                match self.sync(fetched, now) {
                    Ok(_) => (
                        IfCreateTask::Finished,
                        IfCreateAction::Return(self.id_with_name(name.as_str())),
                    ),
                    Err(e) => (IfCreateTask::Finished, IfCreateAction::Return(Err(e))),
                }
            },
            _ => (
                IfCreateTask::Finished,
                IfCreateAction::Return(Err(IfControlError::Invalid(OUT_OF_TURN.to_owned()))),
            ),
        }
    }
}

/// One turn of a creation: from where it stood (`task`) and what came back
/// (`event`) to where it stands (`next`) and what is to be done (`action`),
/// with the store `post` that the turn leaves of the store `pre`.
pub open spec fn create_turn(
    pre: IfStore,
    task: IfCreateTask,
    event: IfCreateEvent,
    post: IfStore,
    next: IfCreateTask,
    action: IfCreateAction,
) -> bool {
    match (task, event) {
        (IfCreateTask::Requesting { kind, name }, IfCreateEvent::Requested(Ok(_))) => {
            &&& post == pre
            &&& next matches IfCreateTask::Syncing { kind: k, name: n }
            &&& k == kind && n == name
            &&& action is Fetch
        },
        (IfCreateTask::Requesting { .. }, IfCreateEvent::Requested(Err(message))) => {
            &&& post == pre
            &&& next is Finished
            &&& action == IfCreateAction::Return(Err(IfControlError::Netlink(message)))
        },
        (IfCreateTask::Syncing { name, .. }, IfCreateEvent::Fetched(fetched, now)) => {
            &&& next is Finished
            &&& action matches IfCreateAction::Return(r)
            &&& match r {
                Ok(k) => {
                    &&& sync_outcome(pre, fetched, now, post, Ok(()))
                    &&& post.name_lookup(name@) == Some(k)
                },
                Err(e) => {
                    ||| sync_outcome(pre, fetched, now, post, Err(e))
                    ||| {
                        &&& sync_outcome(pre, fetched, now, post, Ok(()))
                        &&& post.name_lookup(name@) is None
                        &&& e matches IfControlError::NotFound(m)
                        &&& m@ == name@
                    }
                },
            }
        },
        _ => {
            &&& post == pre
            &&& next is Finished
            &&& action matches IfCreateAction::Return(Err(IfControlError::Invalid(m)))
            &&& m@ == OUT_OF_TURN@
        },
    }
}

/// A creation that the kernel has carried out ends with the new interface
/// resolved. Where the store knew no interface of that name, the fetched
/// table is sound and has a row of that name and kind, and the store knew no
/// interface with that row's kernel index, the last turn returns a handle;
/// the store resolves the name to that handle, and the interface under it
/// is virtual, of the kind that was asked for, and has that name.
pub proof fn law_created_is_resolved(
    pre: IfStore,
    post: IfStore,
    kind: IfLinkType,
    name: String,
    table: IfKernelTable,
    now: SystemTime,
    next: IfCreateTask,
    action: IfCreateAction,
    j: int,
)
    requires
        pre.wf(),
        post.wf(),
        create_turn(
            pre,
            (IfCreateTask::Syncing { kind, name }),
            IfCreateEvent::Fetched(Ok(table), now),
            post,
            next,
            action,
        ),
        table_valid(table@.links),
        pre@.len() + table@.links.len() < ARENA_LIMIT,
        0 <= j < table@.links.len(),
        table@.links[j].name == name@,
        table@.links[j].kind == Some(kind),
        pre.name_lookup(name@) is None,
        pre.ifindex_lookup(table@.links[j].ifindex) is None,
    ensures
        action matches IfCreateAction::Return(Ok(k)) && {
            &&& post.name_lookup(name@) == Some(k)
            &&& post@.contains_key(k)
            &&& post@[k].name == name@
            &&& post@[k].ifindex == table@.links[j].ifindex
            &&& post@[k].role == IfRoleType::Virtual
            &&& post@[k].link_type == kind
        },
{
    let link = table@.links[j];
    assert(reconciled(pre, post, table@, now));
    let k = post.ifindex_lookup(link.ifindex)->0;
    assert(stands(pre, post@, table@, now, j, k));
    assert(kept(pre, table@.links, j) is None);
    assert(post.name_lookup(post@[k].name) == Some(k));
}

} // verus!
