//! Lookup of the protocol tables, and the hooks that are registered for
//! requests.

use crate::messages;
use crate::messages::{GeneratedHookRequestId, hook_request_name, hooks};
use crate::tables;
use crate::tables::{
    GeneratedInterfaceSpec, GeneratedMessageSpec, GeneratedRequestId, MessageView,
    find_generated_request_id, interface_spec, interfaces, request_message_spec, request_position,
};
use crate::text::str_eq;
use vstd::prelude::*;

verus! {

/// A global that the proxy offers of its own: an interface and its version.
#[derive(Debug, Clone, Copy, PartialEq, Eq)]
pub struct GeneratedGlobalSpec {
    pub interface_name: &'static str,
    pub version: u32,
}

/// A request that hooks can be registered for.
#[derive(Debug, Clone, Copy, PartialEq, Eq)]
pub struct GeneratedHookRequestSpec {
    pub id: GeneratedHookRequestId,
    pub request_name: &'static str,
}

/// The globals among the interfaces, in the order of the interfaces.
pub open spec fn globals_among(ids: Seq<tables::InterfaceId>) -> Seq<GeneratedGlobalSpec>
    decreases ids.len(),
{
    if ids.len() == 0 {
        Seq::empty()
    } else {
        let before = globals_among(ids.drop_last());
        let interface = tables::interface_of(ids.last());
        if interface.is_global {
            before.push(
                GeneratedGlobalSpec { interface_name: interface.name, version: interface.version },
            )
        } else {
            before
        }
    }
}

/// The globals that the proxy offers of its own.
pub open spec fn all_globals() -> Seq<GeneratedGlobalSpec> {
    globals_among(tables::all_interfaces())
}

/// The first of the hook requests, from `index` on, that has the name.
pub open spec fn hook_named_from(name: Seq<char>, index: int) -> Option<GeneratedHookRequestId>
    decreases messages::all_hooks().len() - index,
{
    if index < 0 || index >= messages::all_hooks().len() {
        None
    } else if messages::hook_name(messages::all_hooks()[index])@ == name {
        Some(messages::all_hooks()[index])
    } else {
        hook_named_from(name, index + 1)
    }
}

/// The hook request of a full name.
pub open spec fn hook_named(name: Seq<char>) -> Option<GeneratedHookRequestId> {
    hook_named_from(name, 0)
}

/// A hook request as the tables describe it.
pub open spec fn hook_spec(id: GeneratedHookRequestId) -> GeneratedHookRequestSpec {
    GeneratedHookRequestSpec { id, request_name: messages::hook_name(id) }
}

/// The interface and the specification that a request is found under.
pub open spec fn request_entry(
    found: Option<(GeneratedInterfaceSpec, GeneratedMessageSpec)>,
) -> Option<(GeneratedInterfaceSpec, MessageView)> {
    match found {
        Some((interface, message)) => Some((interface, message@)),
        None => None,
    }
}

/// The interface of a request and its specification.
pub open spec fn entry_of(id: GeneratedRequestId) -> Option<(GeneratedInterfaceSpec, MessageView)> {
    match tables::request_of(id) {
        Some(message) => Some((tables::interface_of(tables::request_place(id).0), message)),
        None => None,
    }
}

/// Looks up a request by its full name.
pub fn find_generated_request(request_name: &str) -> (found: Option<
    (GeneratedInterfaceSpec, GeneratedMessageSpec),
>)
    ensures
        request_entry(found) == (match tables::request_named(request_name@) {
            Some(id) => entry_of(id),
            None => None,
        }),
{
    match find_generated_request_id(request_name) {
        Some(id) => request_by_position(id),
        None => None,
    }
}

fn request_by_position(id: GeneratedRequestId) -> (found: Option<
    (GeneratedInterfaceSpec, GeneratedMessageSpec),
>)
    ensures
        request_entry(found) == entry_of(id),
{
    let (interface, opcode): (tables::InterfaceId, u16) = request_position(id);
    match request_message_spec(interface, opcode) {
        Some(message) => Some((interface_spec(interface), message)),
        None => None,
    }
}

/// The protocol tables, with the globals picked out.
#[derive(Debug)]
pub struct WaylandGeneratedProtocolRegistry {
    globals: Vec<GeneratedGlobalSpec>,
}

impl WaylandGeneratedProtocolRegistry {
    /// The globals that the registry lists.
    pub closed spec fn listed_globals(self) -> Seq<GeneratedGlobalSpec> {
        self.globals@
    }

    /// Picks the globals out of the tables.
    pub fn new() -> (registry: Self)
        ensures
            registry.listed_globals() == all_globals(),
    {
        let ids = interfaces();
        let mut globals: Vec<GeneratedGlobalSpec> = Vec::new();
        let mut index: usize = 0;
        proof {
            assert(ids@.take(0) =~= Seq::<tables::InterfaceId>::empty());
        }
        while index < ids.len()
            invariant
                index <= ids@.len(),
                globals@ == globals_among(ids@.take(index as int)),
            decreases ids@.len() - index,
        {
            let interface = interface_spec(ids[index]);
            if interface.is_global {
                globals.push(
                    GeneratedGlobalSpec {
                        interface_name: interface.name,
                        version: interface.version,
                    },
                );
            }
            proof {
                assert(ids@.take(index + 1).drop_last() =~= ids@.take(index as int));
                assert(ids@.take(index + 1).last() == ids@[index as int]);
            }
            index = index + 1;
        }
        proof {
            assert(ids@.take(index as int) =~= ids@);
        }
        WaylandGeneratedProtocolRegistry { globals }
    }

    /// The globals that the proxy offers of its own.
    pub fn globals(&self) -> (globals: &[GeneratedGlobalSpec])
        ensures
            globals@ == self.listed_globals(),
    {
        self.globals.as_slice()
    }

    /// Looks up a request by its full name.
    pub fn request(&self, request_name: &str) -> (found: Option<
        (GeneratedInterfaceSpec, GeneratedMessageSpec),
    >)
        ensures
            request_entry(found) == (match tables::request_named(request_name@) {
                Some(id) => entry_of(id),
                None => None,
            }),
    {
        find_generated_request(request_name)
    }

    /// Looks up the interface and the specification of a request.
    pub fn request_by_id(&self, request_id: GeneratedRequestId) -> (found: Option<
        (GeneratedInterfaceSpec, GeneratedMessageSpec),
    >)
        ensures
            request_entry(found) == entry_of(request_id),
    {
        request_by_position(request_id)
    }

    /// Looks up a hook request.
    pub fn hook_request_by_id(&self, id: GeneratedHookRequestId) -> (hook: Option<
        GeneratedHookRequestSpec,
    >)
        ensures
            hook == Some(hook_spec(id)),
    {
        Some(GeneratedHookRequestSpec { id, request_name: hook_request_name(id) })
    }

    /// Looks up a hook request by its full name.
    pub fn hook_request_by_name(&self, request_name: &str) -> (hook: Option<
        GeneratedHookRequestSpec,
    >)
        ensures
            hook == (match hook_named(request_name@) {
                Some(id) => Some(hook_spec(id)),
                None => None,
            }),
    {
        let ids = hooks();
        let mut index: usize = 0;
        while index < ids.len()
            invariant
                index <= ids@.len(),
                ids@ == messages::all_hooks(),
                hook_named(request_name@) == hook_named_from(request_name@, index as int),
            decreases ids@.len() - index,
        {
            let name = hook_request_name(ids[index]);
            if str_eq(name, request_name) {
                return Some(GeneratedHookRequestSpec { id: ids[index], request_name: name });
            }
            index = index + 1;
        }
        None
    }

    /// Lists the hook requests.
    pub fn hook_requests(&self) -> (listed: Vec<GeneratedHookRequestSpec>)
        ensures
            listed@ == messages::all_hooks().map_values(
                |id: GeneratedHookRequestId| hook_spec(id),
            ),
    {
        let ids = hooks();
        let mut listed: Vec<GeneratedHookRequestSpec> = Vec::new();
        let mut index: usize = 0;
        while index < ids.len()
            invariant
                index <= ids@.len(),
                listed@.len() == index,
                forall|i: int| 0 <= i < index ==> #[trigger] listed@[i] == hook_spec(ids@[i]),
            decreases ids@.len() - index,
        {
            listed.push(
                GeneratedHookRequestSpec {
                    id: ids[index],
                    request_name: hook_request_name(ids[index]),
                },
            );
            index = index + 1;
        }
        listed
    }
}

/// Each hook request is a request that the tables list under its name.
pub proof fn hook_request_is_listed(id: GeneratedHookRequestId)
    ensures
        entry_of(messages::hooked_request(id)) is Some,
{
    tables::request_is_found_by_its_opcode(messages::hooked_request(id));
}

/// Hooks, grouped by the request that they are registered for.
#[derive(Debug)]
pub struct WaylandHookRegistry<H> {
    hooks: Vec<(GeneratedHookRequestId, Vec<H>)>,
    none: Vec<H>,
}

/// Where the group of a request stands, or the number of groups.
spec fn group_index<H>(
    groups: Seq<(GeneratedHookRequestId, Vec<H>)>,
    id: GeneratedHookRequestId,
) -> int
    decreases groups.len(),
{
    if groups.len() == 0 {
        0
    } else if groups[0].0 == id {
        0
    } else {
        1 + group_index(groups.drop_first(), id)
    }
}

proof fn group_index_is_first<H>(
    groups: Seq<(GeneratedHookRequestId, Vec<H>)>,
    id: GeneratedHookRequestId,
    index: int,
)
    requires
        0 <= index <= groups.len(),
        forall|i: int| 0 <= i < index ==> (#[trigger] groups[i]).0 != id,
        index < groups.len() ==> groups[index].0 == id,
    ensures
        group_index(groups, id) == index,
    decreases groups.len(),
{
    if index > 0 {
        let rest = groups.drop_first();
        assert forall|i: int| 0 <= i < index - 1 implies (#[trigger] rest[i]).0 != id by {
            assert(rest[i] == groups[i + 1]);
        }
        group_index_is_first(rest, id, index - 1);
    }
}

proof fn group_index_finds<H>(
    groups: Seq<(GeneratedHookRequestId, Vec<H>)>,
    id: GeneratedHookRequestId,
)
    ensures
        0 <= group_index(groups, id) <= groups.len(),
        group_index(groups, id) < groups.len() ==> groups[group_index(groups, id)].0 == id,
        forall|i: int| 0 <= i < group_index(groups, id) ==> (#[trigger] groups[i]).0 != id,
    decreases groups.len(),
{
    if groups.len() > 0 && groups[0].0 != id {
        let rest = groups.drop_first();
        group_index_finds(rest, id);
        assert forall|i: int| 0 <= i < group_index(groups, id) implies (#[trigger] groups[i]).0
            != id by {
            if i > 0 {
                assert(rest[i - 1] == groups[i]);
            }
        }
    }
}

/// A change of one group leaves the groups of other requests where they are.
proof fn other_group_stays<H>(
    before: Seq<(GeneratedHookRequestId, Vec<H>)>,
    after: Seq<(GeneratedHookRequestId, Vec<H>)>,
    changed: int,
    other: GeneratedHookRequestId,
)
    requires
        0 <= changed < after.len(),
        changed <= before.len(),
        before.len() <= after.len() <= before.len() + 1,
        after.len() == before.len() + 1 ==> changed == before.len(),
        after[changed].0 != other,
        changed < before.len() ==> before[changed].0 != other,
        forall|i: int|
            0 <= i < before.len() && i != changed ==> #[trigger] after[i] == before[i],
    ensures
        (group_index(before, other) < before.len()) == (group_index(after, other) < after.len()),
        group_index(before, other) < before.len() ==> after[group_index(after, other)]
            == before[group_index(before, other)],
{
    let index = group_index(before, other);
    group_index_finds(before, other);
    let place = if index < before.len() {
        index
    } else {
        after.len() as int
    };
    assert forall|i: int| 0 <= i < place implies (#[trigger] after[i]).0 != other by {
        if i < before.len() && i != changed {
            assert(after[i] == before[i]);
        }
    }
    group_index_is_first(after, other, place);
}

impl<H> WaylandHookRegistry<H> {
    /// The hooks of a request, in the order in which they were registered.
    pub closed spec fn hooks_of(self, request_id: GeneratedHookRequestId) -> Seq<H> {
        let index = group_index(self.hooks@, request_id);
        if index < self.hooks@.len() {
            self.hooks@[index].1@
        } else {
            Seq::empty()
        }
    }

    #[verifier::type_invariant]
    spec fn nothing_in_none(self) -> bool {
        self.none@.len() == 0
    }

    fn position(&self, request_id: GeneratedHookRequestId) -> (index: usize)
        ensures
            index == group_index(self.hooks@, request_id),
            index <= self.hooks@.len(),
            forall|i: int| 0 <= i < index ==> (#[trigger] self.hooks@[i]).0 != request_id,
            index < self.hooks@.len() ==> self.hooks@[index as int].0 == request_id,
    {
        let mut index: usize = 0;
        while index < self.hooks.len() && self.hooks[index].0 != request_id
            invariant
                index <= self.hooks@.len(),
                forall|i: int| 0 <= i < index ==> (#[trigger] self.hooks@[i]).0 != request_id,
            decreases self.hooks@.len() - index,
        {
            index = index + 1;
        }
        proof {
            group_index_is_first(self.hooks@, request_id, index as int);
        }
        index
    }

    /// Registers a hook for a request, after those that it already has.
    pub fn register(&mut self, request_id: GeneratedHookRequestId, hook: H)
        ensures
            final(self).hooks_of(request_id) == old(self).hooks_of(request_id).push(hook),
            forall|other: GeneratedHookRequestId|
                other != request_id ==> #[trigger] final(self).hooks_of(other) == old(
                    self,
                ).hooks_of(other),
    {
        proof {
            use_type_invariant(&*self);
        }
        let index: usize = self.position(request_id);
        let mut groups: Vec<(GeneratedHookRequestId, Vec<H>)> = Vec::new();
        std::mem::swap(&mut groups, &mut self.hooks);
        if index == groups.len() {
            groups.push((request_id, Vec::new()));
        }
        groups[index].1.push(hook);
        proof {
            group_index_is_first(groups@, request_id, index as int);
            assert forall|other: GeneratedHookRequestId| other != request_id implies ({
                &&& (group_index(old(self).hooks@, other) < old(self).hooks@.len()) == (
                group_index(groups@, other) < groups@.len())
                &&& group_index(old(self).hooks@, other) < old(self).hooks@.len()
                    ==> groups@[#[trigger] group_index(groups@, other)] == old(
                    self,
                ).hooks@[group_index(old(self).hooks@, other)]
            }) by {
                other_group_stays(old(self).hooks@, groups@, index as int, other);
            }
        }
        self.hooks = groups;
    }

    /// The hooks of a request, in the order in which they were registered.
    pub fn hooks_for(&self, request_id: GeneratedHookRequestId) -> (hooks: &[H])
        ensures
            hooks@ == self.hooks_of(request_id),
    {
        proof {
            use_type_invariant(self);
        }
        let index: usize = self.position(request_id);
        if index < self.hooks.len() {
            self.hooks[index].1.as_slice()
        } else {
            self.none.as_slice()
        }
    }

    /// Whether a request has any hook.
    pub fn has_hooks(&self, request_id: GeneratedHookRequestId) -> (any: bool)
        ensures
            any == (self.hooks_of(request_id).len() > 0),
    {
        self.hooks_for(request_id).len() > 0
    }
}

impl<H> Default for WaylandHookRegistry<H> {
    fn default() -> (registry: Self)
        ensures
            forall|id: GeneratedHookRequestId| #[trigger] registry.hooks_of(id)
                == Seq::<H>::empty(),
    {
        WaylandHookRegistry { hooks: Vec::new(), none: Vec::new() }
    }
}

/// The globals that the proxy has of its own are the interfaces that the protocol has
/// as globals, each in its version, and no others.
pub proof fn own_globals_are_the_globals(global: GeneratedGlobalSpec)
    ensures
        all_globals().contains(global) <==> exists|i: int|
            0 <= i < tables::all_interfaces().len() && is_the_global(
                #[trigger] tables::all_interfaces()[i],
                global,
            ),
{
    globals_are_among(tables::all_interfaces(), global);
}

/// Whether an interface is a global of this name and version.
pub open spec fn is_the_global(id: tables::InterfaceId, global: GeneratedGlobalSpec) -> bool {
    let interface = tables::interface_of(id);
    interface.is_global && interface.name == global.interface_name && interface.version
        == global.version
}

proof fn globals_are_among(ids: Seq<tables::InterfaceId>, global: GeneratedGlobalSpec)
    ensures
        globals_among(ids).contains(global) <==> exists|i: int|
            0 <= i < ids.len() && is_the_global(#[trigger] ids[i], global),
    decreases ids.len(),
{
    if ids.len() > 0 {
        let rest = ids.drop_last();
        globals_are_among(rest, global);
        let before = globals_among(rest);
        let after = globals_among(ids);
        if before.contains(global) {
            let i = choose|i: int| 0 <= i < rest.len() && is_the_global(#[trigger] rest[i], global);
            assert(is_the_global(ids[i], global));
            let at = choose|at: int| 0 <= at < before.len() && before[at] == global;
            assert(after[at] == global);
        }
        if is_the_global(ids.last(), global) {
            assert(is_the_global(ids[ids.len() - 1], global));
            assert(after.last() == global);
            assert(after[after.len() - 1] == global);
        }
        if exists|i: int| 0 <= i < ids.len() && is_the_global(#[trigger] ids[i], global) {
            let i = choose|i: int| 0 <= i < ids.len() && is_the_global(#[trigger] ids[i], global);
            if i < rest.len() {
                assert(is_the_global(rest[i], global));
            }
        }
        if after.contains(global) && !before.contains(global) {
            let at = choose|at: int| 0 <= at < after.len() && after[at] == global;
            if at < before.len() {
                assert(before[at] == global);
            }
        }
    }
}

} // verus!
