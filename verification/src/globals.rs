//! The globals of a compositor, and which of them the proxy passes on.
//!
//! A global whose requests the proxy cannot read must not be advertised:
//! without the signature of a request the file descriptors in the stream
//! cannot be told to belong to it.

use crate::registry;
use crate::registry::{WaylandGeneratedProtocolRegistry, WaylandHookRegistry};
use crate::messages::GeneratedHookRequestId;
use crate::messages;
use crate::tables;
use crate::tables::{GeneratedInterfaceSpec, GeneratedMessageSpec, GeneratedRequestId, interface_by_name};
use crate::text::str_eq;
use vstd::prelude::*;

verus! {

/// A global: its number in the registry, its interface and its version.
#[derive(Debug, PartialEq, Eq)]
pub struct WaylandGlobalInfo {
    pub name: u32,
    pub interface: String,
    pub version: u32,
}

/// The value of a global.
#[verifier::ext_equal]
pub struct GlobalView {
    pub name: u32,
    pub interface: Seq<char>,
    pub version: u32,
}

impl View for WaylandGlobalInfo {
    type V = GlobalView;

    open spec fn view(&self) -> GlobalView {
        GlobalView { name: self.name, interface: self.interface@, version: self.version }
    }
}

/// The values of a list of globals.
pub open spec fn global_values(globals: Seq<WaylandGlobalInfo>) -> Seq<GlobalView> {
    globals.map_values(|global: WaylandGlobalInfo| global@)
}

/// Copies a global.
pub fn copy_global(global: &WaylandGlobalInfo) -> (copy: WaylandGlobalInfo)
    ensures
        copy@ == global@,
{
    WaylandGlobalInfo {
        name: global.name,
        interface: global.interface.clone(),
        version: global.version,
    }
}

/// Whether a global is held back although its requests could be read.
pub open spec fn held_back(interface: Seq<char>) -> bool {
    interface == "org_kde_kwin_server_decoration_manager"@ || interface
        == "wp_color_representation_manager_v1"@ || interface == "xdg_activation_v1"@
}

/// Whether the proxy passes a global on: it can read its requests, by its
/// tables or, for shared memory, itself.
pub open spec fn supported(interface: Seq<char>) -> bool {
    !held_back(interface) && (interface == "wl_shm"@ || tables::interface_named(interface) is Some)
}

/// Whether the proxy passes a global on.
pub fn is_supported_backend_global(interface: &str) -> (passed_on: bool)
    ensures
        passed_on == supported(interface@),
{
    if str_eq(interface, "org_kde_kwin_server_decoration_manager") || str_eq(
        interface,
        "wp_color_representation_manager_v1",
    ) || str_eq(interface, "xdg_activation_v1") {
        return false;
    }
    str_eq(interface, "wl_shm") || interface_by_name(interface).is_some()
}

/// Whether the proxy keeps a global from its clients.
pub fn is_suppressed_backend_global(interface: &str) -> (suppressed: bool)
    ensures
        suppressed == !supported(interface@),
{
    !is_supported_backend_global(interface)
}

/// The globals that the proxy passes on, in their order.
pub open spec fn filtered(globals: Seq<GlobalView>) -> Seq<GlobalView> {
    globals.filter(|global: GlobalView| supported(global.interface))
}

/// Picks the globals that the proxy passes on.
pub fn filtered_backend_globals(globals: &[WaylandGlobalInfo]) -> (passed_on: Vec<
    WaylandGlobalInfo,
>)
    ensures
        global_values(passed_on@) == filtered(global_values(globals@)),
{
    let ghost values = global_values(globals@);
    let ghost wanted = |global: GlobalView| supported(global.interface);
    let mut passed_on: Vec<WaylandGlobalInfo> = Vec::new();
    let mut index: usize = 0;
    proof {
        reveal(Seq::filter);
        assert(values.take(0) =~= Seq::<GlobalView>::empty());
        assert(global_values(passed_on@) =~= values.take(0).filter(wanted));
    }
    while index < globals.len()
        invariant
            index <= globals@.len(),
            values == global_values(globals@),
            wanted == (|global: GlobalView| supported(global.interface)),
            global_values(passed_on@) == values.take(index as int).filter(wanted),
        decreases globals@.len() - index,
    {
        proof {
            reveal(Seq::filter);
            assert(values.take(index + 1).drop_last() =~= values.take(index as int));
            assert(values.take(index + 1).last() == globals@[index as int]@);
        }
        let ghost before = passed_on@;
        if is_supported_backend_global(globals[index].interface.as_str()) {
            passed_on.push(copy_global(&globals[index]));
            assert(global_values(passed_on@) =~= global_values(before).push(
                globals@[index as int]@,
            ));
        }
        index = index + 1;
    }
    proof {
        assert(values.take(index as int) =~= values);
    }
    passed_on
}

/// Only globals that the proxy can serve are passed on, and each of those is,
/// with its number and version as they were.
pub proof fn passed_on_globals_are_supported(globals: Seq<GlobalView>, global: GlobalView)
    ensures
        filtered(globals).contains(global) <==> globals.contains(global) && supported(
            global.interface,
        ),
    decreases globals.len(),
{
    reveal(Seq::filter);
    let wanted = |global: GlobalView| supported(global.interface);
    if globals.len() > 0 {
        let rest = globals.drop_last();
        let last = globals.last();
        passed_on_globals_are_supported(rest, global);
        if globals.contains(global) && global != last {
            let at = choose|at: int| 0 <= at < globals.len() && globals[at] == global;
            assert(rest[at] == global);
        }
        if rest.contains(global) {
            let at = choose|at: int| 0 <= at < rest.len() && rest[at] == global;
            assert(globals[at] == global);
        }
        assert(globals[globals.len() - 1] == last);
        if wanted(last) {
            let kept = filtered(rest);
            assert(filtered(globals) == kept.push(last));
            if kept.contains(global) {
                let at = choose|at: int| 0 <= at < kept.len() && kept[at] == global;
                assert(kept.push(last)[at] == global);
            }
            assert(kept.push(last)[kept.len() as int] == last);
            if kept.push(last).contains(global) && global != last {
                let at = choose|at: int|
                    0 <= at < kept.push(last).len() && kept.push(last)[at] == global;
                assert(kept[at] == global);
            }
        }
    }
}

/// The first global, from `index` on, that has the number.
pub open spec fn global_numbered(globals: Seq<GlobalView>, name: u32, index: int) -> Option<int>
    decreases globals.len() - index,
{
    if index < 0 || index >= globals.len() {
        None
    } else if globals[index].name == name {
        Some(index)
    } else {
        global_numbered(globals, name, index + 1)
    }
}

/// With a global, in place of the one that had its number.
pub open spec fn upserted(globals: Seq<GlobalView>, global: GlobalView) -> Seq<GlobalView> {
    match global_numbered(globals, global.name, 0) {
        Some(index) => globals.update(index, global),
        None => globals.push(global),
    }
}

/// Notes a global. One that is announced again replaces what was known of it.
pub fn upsert_backend_global(
    globals: &mut Vec<WaylandGlobalInfo>,
    name: u32,
    interface: &str,
    version: u32,
)
    ensures
        global_values(final(globals)@) == upserted(
            global_values(old(globals)@),
            GlobalView { name, interface: interface@, version },
        ),
{
    let ghost values = global_values(globals@);
    let global = WaylandGlobalInfo { name, interface: interface.to_owned(), version };
    let mut index: usize = 0;
    while index < globals.len() && globals[index].name != name
        invariant
            index <= globals@.len(),
            globals@ == old(globals)@,
            values == global_values(globals@),
            global_numbered(values, name, 0) == global_numbered(values, name, index as int),
        decreases globals@.len() - index,
    {
        index = index + 1;
    }
    if index < globals.len() {
        globals[index] = global;
        assert(global_values(globals@) =~= values.update(index as int, global@));
    } else {
        globals.push(global);
        assert(global_values(globals@) =~= values.push(global@));
    }
}

/// Whether no two globals have the same number.
pub open spec fn numbers_differ(globals: Seq<GlobalView>) -> bool {
    forall|i: int, j: int|
        0 <= i < j < globals.len() ==> (#[trigger] globals[i]).name != (#[trigger] globals[j]).name
}

proof fn global_numbered_is_first(globals: Seq<GlobalView>, name: u32, index: int)
    requires
        0 <= index <= globals.len(),
        forall|i: int| 0 <= i < index ==> (#[trigger] globals[i]).name != name,
    ensures
        match global_numbered(globals, name, index) {
            Some(found) => index <= found < globals.len() && globals[found].name == name,
            None => forall|i: int| 0 <= i < globals.len() ==> (#[trigger] globals[i]).name != name,
        },
    decreases globals.len() - index,
{
    if index < globals.len() && globals[index].name != name {
        global_numbered_is_first(globals, name, index + 1);
    }
}

/// A registry that is listed again doubles no global: where the numbers of the
/// globals differ they still do after one was noted, and the one noted is among
/// them.
pub proof fn noted_global_is_not_doubled(globals: Seq<GlobalView>, global: GlobalView)
    requires
        numbers_differ(globals),
    ensures
        numbers_differ(upserted(globals, global)),
        upserted(globals, global).contains(global),
{
    global_numbered_is_first(globals, global.name, 0);
    let after = upserted(globals, global);
    match global_numbered(globals, global.name, 0) {
        Some(index) => {
            assert(after[index] == global);
            assert forall|i: int, j: int| 0 <= i < j < after.len() implies (
            #[trigger] after[i]).name != (#[trigger] after[j]).name by {
                assert(globals[i].name != globals[j].name);
            }
        },
        None => {
            assert(after[globals.len() as int] == global);
        },
    }
}

/// What a hook does when its request comes.
#[derive(Debug, Clone, Copy, PartialEq, Eq, Structural)]
pub enum WaylandInterceptKind {
    SurfaceAttach,
    SurfaceDamage,
    SurfaceCommit,
    TimelineImport,
    AcquirePoint,
    ReleasePoint,
}

/// A hook on a request.
#[derive(Debug, Clone, Copy, PartialEq, Eq, Structural)]
pub struct WaylandInterceptHook {
    pub kind: WaylandInterceptKind,
}

/// A global that the proxy offers of its own.
#[derive(Debug, PartialEq, Eq)]
pub struct WaylandGlobalBinding {
    pub interface: String,
    pub version: u32,
}

/// The tables of the protocols, and the hooks on their requests.
pub struct WaylandProtocolRegistry {
    pub generated: WaylandGeneratedProtocolRegistry,
    pub intercepts: WaylandHookRegistry<WaylandInterceptHook>,
}

/// Whether a binding is for a global.
pub open spec fn binds(binding: WaylandGlobalBinding, global: registry::GeneratedGlobalSpec) -> bool {
    binding.interface@ == global.interface_name@ && binding.version == global.version
}

impl WaylandProtocolRegistry {
    /// The hooks on a request, in the order in which they were registered.
    pub closed spec fn intercepts_of(self, request_id: GeneratedHookRequestId) -> Seq<
        WaylandInterceptHook,
    > {
        self.intercepts.hooks_of(request_id)
    }

    /// The globals that the proxy offers of its own.
    pub closed spec fn own_globals(self) -> Seq<registry::GeneratedGlobalSpec> {
        self.generated.listed_globals()
    }

    /// Lists the globals that the proxy offers of its own.
    pub fn global_specs(&self) -> (bindings: Vec<WaylandGlobalBinding>)
        ensures
            bindings@.len() == self.own_globals().len(),
            forall|i: int|
                0 <= i < bindings@.len() ==> binds(#[trigger] bindings@[i], self.own_globals()[i]),
    {
        let globals = self.generated.globals();
        let mut bindings: Vec<WaylandGlobalBinding> = Vec::new();
        let mut index: usize = 0;
        while index < globals.len()
            invariant
                index <= globals@.len(),
                globals@ == self.own_globals(),
                bindings@.len() == index,
                forall|i: int| 0 <= i < index ==> binds(#[trigger] bindings@[i], globals@[i]),
            decreases globals@.len() - index,
        {
            bindings.push(
                WaylandGlobalBinding {
                    interface: globals[index].interface_name.to_owned(),
                    version: globals[index].version,
                },
            );
            index = index + 1;
        }
        bindings
    }

    /// Names the globals that the proxy offers of its own.
    pub fn global_names(&self) -> (names: Vec<String>)
        ensures
            names@.len() == self.own_globals().len(),
            forall|i: int|
                0 <= i < names@.len() ==> (#[trigger] names@[i])@
                    == self.own_globals()[i].interface_name@,
    {
        let globals = self.generated.globals();
        let mut names: Vec<String> = Vec::new();
        let mut index: usize = 0;
        while index < globals.len()
            invariant
                index <= globals@.len(),
                globals@ == self.own_globals(),
                names@.len() == index,
                forall|i: int|
                    0 <= i < index ==> (#[trigger] names@[i])@ == globals@[i].interface_name@,
            decreases globals@.len() - index,
        {
            names.push(globals[index].interface_name.to_owned());
            index = index + 1;
        }
        names
    }

    /// Registers a hook on a request, after those that it already has.
    pub fn register_intercept(
        &mut self,
        request_id: GeneratedHookRequestId,
        hook: WaylandInterceptHook,
    )
        ensures
            final(self).own_globals() == old(self).own_globals(),
            final(self).intercepts_of(request_id) == old(self).intercepts_of(request_id).push(hook),
            forall|other: GeneratedHookRequestId|
                other != request_id ==> #[trigger] final(self).intercepts_of(other) == old(
                    self,
                ).intercepts_of(other),
    {
        let ghost before = *self;
        self.intercepts.register(request_id, hook);
        proof {
            assert forall|other: GeneratedHookRequestId| other != request_id implies
                #[trigger] self.intercepts_of(other) == before.intercepts_of(other) by {
                assert(self.intercepts.hooks_of(other) == before.intercepts.hooks_of(other));
            }
        }
    }

    /// The names of the requests, of those listed, that have hooks.
    pub open spec fn hooked_names(self, ids: Seq<GeneratedHookRequestId>) -> Seq<Seq<char>>
        decreases ids.len(),
    {
        if ids.len() == 0 {
            Seq::empty()
        } else {
            let before = self.hooked_names(ids.drop_last());
            if self.intercepts_of(ids.last()).len() > 0 {
                before.push(messages::hook_name(ids.last())@)
            } else {
                before
            }
        }
    }

    /// Names the requests that have hooks.
    pub fn intercept_names(&self) -> (names: Vec<String>)
        ensures
            names@.map_values(|name: String| name@) == self.hooked_names(messages::all_hooks()),
    {
        let listed = self.generated.hook_requests();
        let ghost ids = messages::all_hooks();
        let mut names: Vec<String> = Vec::new();
        let mut index: usize = 0;
        proof {
            assert(ids.take(0) =~= Seq::<GeneratedHookRequestId>::empty());
            assert(names@.map_values(|name: String| name@) =~= self.hooked_names(ids.take(0)));
        }
        while index < listed.len()
            invariant
                index <= listed@.len(),
                ids == messages::all_hooks(),
                listed@ == ids.map_values(|id: GeneratedHookRequestId| registry::hook_spec(id)),
                names@.map_values(|name: String| name@) == self.hooked_names(
                    ids.take(index as int),
                ),
            decreases listed@.len() - index,
        {
            let ghost before = names@;
            let hook = listed[index];
            proof {
                assert(ids.take(index + 1).drop_last() =~= ids.take(index as int));
                assert(ids.take(index + 1).last() == ids[index as int]);
                assert(hook == registry::hook_spec(ids[index as int]));
            }
            if self.intercepts.has_hooks(hook.id) {
                names.push(hook.request_name.to_owned());
                assert(names@.map_values(|name: String| name@) =~= before.map_values(
                    |name: String| name@,
                ).push(hook.request_name@));
            }
            index = index + 1;
        }
        proof {
            assert(ids.take(index as int) =~= ids);
        }
        names
    }

    /// The hooks on a request.
    pub fn intercepts_for(&self, request_id: GeneratedHookRequestId) -> (hooks: &[
        WaylandInterceptHook
    ])
        ensures
            hooks@ == self.intercepts_of(request_id),
    {
        self.intercepts.hooks_for(request_id)
    }

    /// Looks up the interface and the specification of a request.
    pub fn request_by_id(&self, request_id: GeneratedRequestId) -> (found: Option<
        (GeneratedInterfaceSpec, GeneratedMessageSpec),
    >)
        ensures
            registry::request_entry(found) == registry::entry_of(request_id),
    {
        self.generated.request_by_id(request_id)
    }

    /// Looks up a request that hooks can be registered on by its full name.
    pub fn hook_request_id(&self, request_name: &str) -> (id: Option<GeneratedHookRequestId>)
        ensures
            id == registry::hook_named(request_name@),
    {
        match self.generated.hook_request_by_name(request_name) {
            Some(hook) => Some(hook.id),
            None => None,
        }
    }
}

/// Each hook request has a name of its own.
pub proof fn hook_names_differ(a: GeneratedHookRequestId, b: GeneratedHookRequestId)
    requires
        messages::hook_name(a)@ == messages::hook_name(b)@,
    ensures
        a == b,
{
    reveal_strlit("wl_surface.destroy");
    assert("wl_surface.destroy"@.len() == 18);
    reveal_strlit("wl_surface.attach");
    assert("wl_surface.attach"@.len() == 17);
    reveal_strlit("wl_surface.damage");
    assert("wl_surface.damage"@.len() == 17);
    reveal_strlit("wl_surface.damage_buffer");
    assert("wl_surface.damage_buffer"@.len() == 24);
    reveal_strlit("wl_surface.commit");
    assert("wl_surface.commit"@.len() == 17);
    reveal_strlit("wp_linux_drm_syncobj_manager_v1.import_timeline");
    assert("wp_linux_drm_syncobj_manager_v1.import_timeline"@.len() == 47);
    reveal_strlit("wp_linux_drm_syncobj_surface_v1.set_acquire_point");
    assert("wp_linux_drm_syncobj_surface_v1.set_acquire_point"@.len() == 49);
    reveal_strlit("wp_linux_drm_syncobj_surface_v1.set_release_point");
    assert("wp_linux_drm_syncobj_surface_v1.set_release_point"@.len() == 49);
    reveal_strlit("wp_color_manager_v1.get_surface");
    assert("wp_color_manager_v1.get_surface"@.len() == 31);
    reveal_strlit("wp_color_manager_v1.create_parametric_creator");
    assert("wp_color_manager_v1.create_parametric_creator"@.len() == 45);
    reveal_strlit("wp_color_manager_v1.create_windows_scrgb");
    assert("wp_color_manager_v1.create_windows_scrgb"@.len() == 40);
    reveal_strlit("wp_color_management_surface_v1.destroy");
    assert("wp_color_management_surface_v1.destroy"@.len() == 38);
    reveal_strlit("wp_color_management_surface_v1.set_image_description");
    assert("wp_color_management_surface_v1.set_image_description"@.len() == 52);
    reveal_strlit("wp_color_management_surface_v1.unset_image_description");
    assert("wp_color_management_surface_v1.unset_image_description"@.len() == 54);
    reveal_strlit("wp_image_description_creator_params_v1.create");
    assert("wp_image_description_creator_params_v1.create"@.len() == 45);
    reveal_strlit("wp_image_description_creator_params_v1.set_tf_named");
    assert("wp_image_description_creator_params_v1.set_tf_named"@.len() == 51);
    reveal_strlit("wp_image_description_creator_params_v1.set_tf_power");
    assert("wp_image_description_creator_params_v1.set_tf_power"@.len() == 51);
    reveal_strlit("wp_image_description_creator_params_v1.set_primaries_named");
    assert("wp_image_description_creator_params_v1.set_primaries_named"@.len() == 58);
    reveal_strlit("wp_image_description_creator_params_v1.set_primaries");
    assert("wp_image_description_creator_params_v1.set_primaries"@.len() == 52);
    reveal_strlit("wp_image_description_creator_params_v1.set_luminances");
    assert("wp_image_description_creator_params_v1.set_luminances"@.len() == 53);
    reveal_strlit("wp_image_description_v1.destroy");
    assert("wp_image_description_v1.destroy"@.len() == 31);
    assert("wl_surface.attach"@[11] != "wl_surface.damage"@[11]);
    assert("wl_surface.attach"@[11] != "wl_surface.commit"@[11]);
    assert("wl_surface.damage"@[11] != "wl_surface.commit"@[11]);
    assert("wp_linux_drm_syncobj_surface_v1.set_acquire_point"@[36] != "wp_linux_drm_syncobj_surface_v1.set_release_point"@[36]);
    assert("wp_color_manager_v1.get_surface"@[3] != "wp_image_description_v1.destroy"@[3]);
    assert("wp_color_manager_v1.create_parametric_creator"@[3] != "wp_image_description_creator_params_v1.create"@[3]);
    assert("wp_color_management_surface_v1.set_image_description"@[3] != "wp_image_description_creator_params_v1.set_primaries"@[3]);
    assert("wp_image_description_creator_params_v1.set_tf_named"@[46] != "wp_image_description_creator_params_v1.set_tf_power"@[46]);
}

proof fn hooked_names_come_once(
    known: WaylandProtocolRegistry,
    ids: Seq<GeneratedHookRequestId>,
    name: Seq<char>,
)
    requires
        ids.no_duplicates(),
    ensures
        known.hooked_names(ids).no_duplicates(),
        known.hooked_names(ids).contains(name) == exists|i: int|
            0 <= i < ids.len() && known.intercepts_of(#[trigger] ids[i]).len() > 0
                && messages::hook_name(ids[i])@ == name,
    decreases ids.len(),
{
    if ids.len() > 0 {
        let rest = ids.drop_last();
        let last = ids.last();
        let before = known.hooked_names(rest);
        let own = messages::hook_name(last)@;
        let after = known.hooked_names(ids);
        hooked_names_come_once(known, rest, name);
        hooked_names_come_once(known, rest, own);
        if before.contains(own) {
            let i = choose|i: int|
                0 <= i < rest.len() && known.intercepts_of(#[trigger] rest[i]).len() > 0
                    && messages::hook_name(rest[i])@ == own;
            hook_names_differ(rest[i], last);
            assert(ids[i] == ids[ids.len() - 1]);
        }
        if before.contains(name) {
            let i = choose|i: int|
                0 <= i < rest.len() && known.intercepts_of(#[trigger] rest[i]).len() > 0
                    && messages::hook_name(rest[i])@ == name;
            assert(known.intercepts_of(ids[i]).len() > 0);
            let at = choose|at: int| 0 <= at < before.len() && before[at] == name;
            assert(after[at] == name);
        }
        if known.intercepts_of(last).len() > 0 {
            assert(after == before.push(own));
            assert(after[before.len() as int] == own);
            assert(ids[ids.len() - 1] == last);
            if after.contains(name) && name != own {
                let at = choose|at: int| 0 <= at < after.len() && after[at] == name;
                assert(before[at] == name);
            }
        }
        if exists|i: int|
            0 <= i < ids.len() && known.intercepts_of(#[trigger] ids[i]).len() > 0
                && messages::hook_name(ids[i])@ == name {
            let i = choose|i: int|
                0 <= i < ids.len() && known.intercepts_of(#[trigger] ids[i]).len() > 0
                    && messages::hook_name(ids[i])@ == name;
            if i < rest.len() {
                assert(rest[i] == ids[i]);
            }
        }
    }
}

proof fn hooks_are_all_listed(id: GeneratedHookRequestId)
    ensures
        messages::all_hooks().contains(id),
        messages::all_hooks().no_duplicates(),
{
    let ids = messages::all_hooks();
    assert(exists|i: int| 0 <= i < ids.len() && ids[i] == id);
}

/// The names that are told of hooks are exactly those of the requests that have a
/// hook, and none comes twice.
pub proof fn told_names_are_those_with_hooks(known: WaylandProtocolRegistry, name: Seq<char>)
    ensures
        known.hooked_names(messages::all_hooks()).no_duplicates(),
        known.hooked_names(messages::all_hooks()).contains(name) == exists|id:
            GeneratedHookRequestId|
            (#[trigger] known.intercepts_of(id)).len() > 0 && messages::hook_name(id)@ == name,
{
    let ids = messages::all_hooks();
    hooks_are_all_listed(GeneratedHookRequestId::WlSurfaceCommit);
    hooked_names_come_once(known, ids, name);
    if exists|id: GeneratedHookRequestId|
        (#[trigger] known.intercepts_of(id)).len() > 0 && messages::hook_name(id)@ == name {
        let id = choose|id: GeneratedHookRequestId|
            (#[trigger] known.intercepts_of(id)).len() > 0 && messages::hook_name(id)@ == name;
        hooks_are_all_listed(id);
        let i = choose|i: int| 0 <= i < ids.len() && ids[i] == id;
        assert(known.intercepts_of(ids[i]).len() > 0);
    }
}

impl Default for WaylandProtocolRegistry {
    fn default() -> (made: Self)
        ensures
            made.own_globals() == registry::all_globals(),
            forall|id: GeneratedHookRequestId| #[trigger] made.intercepts_of(id) == Seq::<
                WaylandInterceptHook,
            >::empty(),
    {
        let made = WaylandProtocolRegistry {
            generated: WaylandGeneratedProtocolRegistry::new(),
            intercepts: WaylandHookRegistry::default(),
        };
        proof {
            assert forall|id: GeneratedHookRequestId| #[trigger] made.intercepts_of(id) == Seq::<
                WaylandInterceptHook,
            >::empty() by {
                assert(made.intercepts.hooks_of(id) == Seq::<WaylandInterceptHook>::empty());
            }
        }
        made
    }
}

/// The protocols of the core need nothing beyond their tables.
pub fn register_core_protocols(registry: &mut WaylandProtocolRegistry)
    ensures
        *final(registry) == *old(registry),
{
}

/// The hook that follows the frames of surfaces, on the requests that have one.
pub open spec fn frame_hook(id: GeneratedHookRequestId) -> Option<WaylandInterceptKind> {
    match id {
        GeneratedHookRequestId::WlSurfaceAttach => Some(WaylandInterceptKind::SurfaceAttach),
        GeneratedHookRequestId::WlSurfaceDamage => Some(WaylandInterceptKind::SurfaceDamage),
        GeneratedHookRequestId::WlSurfaceDamageBuffer => Some(WaylandInterceptKind::SurfaceDamage),
        GeneratedHookRequestId::WlSurfaceCommit => Some(WaylandInterceptKind::SurfaceCommit),
        GeneratedHookRequestId::WpLinuxDrmSyncobjManagerV1ImportTimeline => Some(
            WaylandInterceptKind::TimelineImport,
        ),
        GeneratedHookRequestId::WpLinuxDrmSyncobjSurfaceV1SetAcquirePoint => Some(
            WaylandInterceptKind::AcquirePoint,
        ),
        GeneratedHookRequestId::WpLinuxDrmSyncobjSurfaceV1SetReleasePoint => Some(
            WaylandInterceptKind::ReleasePoint,
        ),
        _ => None,
    }
}

/// The hooks on a request once those that follow frames are registered.
pub open spec fn with_frame_hook(
    hooks: Seq<WaylandInterceptHook>,
    id: GeneratedHookRequestId,
) -> Seq<WaylandInterceptHook> {
    match frame_hook(id) {
        Some(kind) => hooks.push(WaylandInterceptHook { kind }),
        None => hooks,
    }
}

/// Registers the hooks that follow the frames of surfaces.
pub fn register_frame_tracking_intercepts(registry: &mut WaylandProtocolRegistry)
    ensures
        final(registry).own_globals() == old(registry).own_globals(),
        forall|id: GeneratedHookRequestId| #[trigger] final(registry).intercepts_of(id)
            == with_frame_hook(old(registry).intercepts_of(id), id),
{
    registry.register_intercept(
        GeneratedHookRequestId::WlSurfaceAttach,
        WaylandInterceptHook { kind: WaylandInterceptKind::SurfaceAttach },
    );
    registry.register_intercept(
        GeneratedHookRequestId::WlSurfaceDamage,
        WaylandInterceptHook { kind: WaylandInterceptKind::SurfaceDamage },
    );
    registry.register_intercept(
        GeneratedHookRequestId::WlSurfaceDamageBuffer,
        WaylandInterceptHook { kind: WaylandInterceptKind::SurfaceDamage },
    );
    registry.register_intercept(
        GeneratedHookRequestId::WlSurfaceCommit,
        WaylandInterceptHook { kind: WaylandInterceptKind::SurfaceCommit },
    );
    registry.register_intercept(
        GeneratedHookRequestId::WpLinuxDrmSyncobjManagerV1ImportTimeline,
        WaylandInterceptHook { kind: WaylandInterceptKind::TimelineImport },
    );
    registry.register_intercept(
        GeneratedHookRequestId::WpLinuxDrmSyncobjSurfaceV1SetAcquirePoint,
        WaylandInterceptHook { kind: WaylandInterceptKind::AcquirePoint },
    );
    registry.register_intercept(
        GeneratedHookRequestId::WpLinuxDrmSyncobjSurfaceV1SetReleasePoint,
        WaylandInterceptHook { kind: WaylandInterceptKind::ReleasePoint },
    );
}

/// A hook request is found by its own name, and under no other.
pub proof fn hooks_are_found_by_their_names(id: GeneratedHookRequestId, name: Seq<char>)
    ensures
        registry::hook_named(messages::hook_name(id)@) == Some(id),
        registry::hook_named(name) == Some(id) ==> name == messages::hook_name(id)@,
{
    hooks_are_all_listed(id);
    let ids = messages::all_hooks();
    let place = choose|i: int| 0 <= i < ids.len() && ids[i] == id;
    hook_is_reached(id, place, 0);
    found_hook_has_the_name(name, 0);
}

proof fn hook_is_reached(id: GeneratedHookRequestId, place: int, from: int)
    requires
        0 <= from <= place < messages::all_hooks().len(),
        messages::all_hooks()[place] == id,
    ensures
        registry::hook_named_from(messages::hook_name(id)@, from) == Some(id),
    decreases place - from,
{
    let first = messages::all_hooks()[from];
    if messages::hook_name(first)@ == messages::hook_name(id)@ {
        hook_names_differ(first, id);
    } else {
        hook_is_reached(id, place, from + 1);
    }
}

proof fn found_hook_has_the_name(name: Seq<char>, from: int)
    requires
        0 <= from <= messages::all_hooks().len(),
    ensures
        registry::hook_named_from(name, from) matches Some(id) ==> messages::hook_name(id)@ == name,
    decreases messages::all_hooks().len() - from,
{
    if from < messages::all_hooks().len() && messages::hook_name(messages::all_hooks()[from])@
        != name {
        found_hook_has_the_name(name, from + 1);
    }
}

} // verus!
