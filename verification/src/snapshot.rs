//! What a caller is told of the proxy as a whole.

use crate::globals;
use crate::globals::{GlobalView, WaylandGlobalInfo};
use crate::launch;
use crate::launch::{Endpoint, EndpointView, PreflightView, WaylandLaunchPreflight};
use crate::messages;
use crate::registry;
use crate::server;
use crate::server::{ServerView, WaylandConnectionHistoryEntry, WaylandProxyServer};
use crate::session::{SessionView, WaylandClientSession};
use crate::table;
use crate::text;
use crate::text::{copy_text, str_eq};
use crate::tracker;
use crate::windows;
use crate::windows::precedes_text;
use vstd::prelude::*;
use vstd::string::*;

verus! {

/// What a caller is told of a client.
#[derive(Debug, PartialEq, Eq)]
pub struct WaylandSessionSnapshot {
    pub client_id: u64,
    pub backend_globals: Vec<String>,
    pub mapped_resource_count: usize,
    pub tracked_surface_count: usize,
    pub latest_commit_serial: u64,
}

/// What a caller is told of the proxy.
#[derive(Debug, PartialEq, Eq)]
pub struct WaylandBackendSnapshot {
    pub socket_name: String,
    pub socket_path: Option<String>,
    pub backend_socket: String,
    pub running: bool,
    pub launch_preflight: WaylandLaunchPreflight,
    pub session_count: usize,
    pub registered_globals: Vec<String>,
    pub registered_intercepts: Vec<String>,
    pub last_runtime_error: Option<String>,
    pub connection_history: Vec<WaylandConnectionHistoryEntry>,
    pub sessions: Vec<WaylandSessionSnapshot>,
}

/// The characters of texts.
pub open spec fn text_values(names: Seq<String>) -> Seq<Seq<char>> {
    names.map_values(|name: String| name@)
}

/// The interfaces of globals.
pub open spec fn interfaces_of(known: Seq<GlobalView>) -> Seq<Seq<char>> {
    known.map_values(|global: GlobalView| global.interface)
}

/// Whether a caller is told of a client what is so.
pub open spec fn describes(told: WaylandSessionSnapshot, client: SessionView) -> bool {
    &&& told.client_id == client.client_id
    &&& text_values(told.backend_globals@) == interfaces_of(client.backend_globals)
    &&& told.mapped_resource_count == client.resources.client_to_backend.dom().len()
    &&& told.tracked_surface_count == client.tracker.surfaces.dom().len()
    &&& client.tracker.is_latest_serial(told.latest_commit_serial)
}

/// Whether texts are in order, each of them once.
pub open spec fn in_text_order(names: Seq<Seq<char>>) -> bool {
    forall|i: int, j: int|
        0 <= i < j < names.len() ==> windows::text_before(#[trigger] names[i], #[trigger] names[j])
}

proof fn codes_differ(a: char, b: char)
    requires
        a != b,
    ensures
        a as u32 != b as u32,
{
}

proof fn text_order_is_total(a: Seq<char>, b: Seq<char>)
    ensures
        windows::text_before(a, b) || windows::text_before(b, a) || a == b,
        !(windows::text_before(a, b) && windows::text_before(b, a)),
        !windows::text_before(a, a),
    decreases a.len(),
{
    if a.len() == 0 {
        if b.len() == 0 {
            assert(a =~= b);
        }
    } else if b.len() > 0 {
        if a[0] != b[0] {
            codes_differ(a[0], b[0]);
        } else {
            text_order_is_total(a.drop_first(), b.drop_first());
            if a.drop_first() == b.drop_first() {
                assert(a =~= seq![a[0]] + a.drop_first());
                assert(b =~= seq![b[0]] + b.drop_first());
            }
        }
        text_order_is_total(a.drop_first(), a.drop_first());
    } else {
        text_order_is_total(a.drop_first(), a.drop_first());
    }
}

proof fn text_order_is_transitive(a: Seq<char>, b: Seq<char>, c: Seq<char>)
    requires
        windows::text_before(a, b),
        windows::text_before(b, c),
    ensures
        windows::text_before(a, c),
    decreases a.len(),
{
    if a.len() > 0 && b.len() > 0 && c.len() > 0 {
        if a[0] == b[0] && b[0] == c[0] {
            text_order_is_transitive(a.drop_first(), b.drop_first(), c.drop_first());
        }
    }
}

fn insert_name(names: &mut Vec<String>, name: &str)
    requires
        in_text_order(text_values(old(names)@)),
    ensures
        in_text_order(text_values(final(names)@)),
        text_values(final(names)@).to_set() == text_values(old(names)@).to_set().insert(name@),
{
    let ghost before = text_values(names@);
    let mut position: usize = 0;
    while position < names.len() && precedes_text(names[position].as_str(), name)
        invariant
            position <= names@.len(),
            before == text_values(names@),
            forall|i: int| 0 <= i < position ==> windows::text_before(#[trigger] before[i], name@),
        decreases names@.len() - position,
    {
        position = position + 1;
    }
    if position < names.len() && str_eq(names[position].as_str(), name) {
        proof {
            assert(before[position as int] == name@);
            assert(before.to_set().insert(name@) =~= before.to_set());
        }
        return;
    }
    names.insert(position, name.to_owned());
    proof {
        let after = text_values(names@);
        assert(after =~= before.insert(position as int, name@));
        if position < before.len() {
            text_order_is_total(before[position as int], name@);
        }
        assert forall|i: int, j: int| 0 <= i < j < after.len() implies windows::text_before(
            #[trigger] after[i],
            #[trigger] after[j],
        ) by {
            if j < position {
                assert(after[i] == before[i] && after[j] == before[j]);
            } else if i > position {
                assert(after[i] == before[i - 1] && after[j] == before[j - 1]);
            } else if j == position {
                assert(after[i] == before[i]);
            } else {
                assert(after[j] == before[j - 1]);
                if i < position {
                    assert(after[i] == before[i]);
                } else if j - 1 > position {
                    assert(windows::text_before(before[position as int], before[j - 1]));
                    text_order_is_transitive(name@, before[position as int], before[j - 1]);
                }
            }
        }
        assert forall|text: Seq<char>| after.to_set().contains(text)
            == before.to_set().insert(name@).contains(text) by {
            if before.contains(text) {
                let at = choose|at: int| 0 <= at < before.len() && before[at] == text;
                if at < position {
                    assert(after[at] == text);
                } else {
                    assert(after[at + 1] == text);
                }
            }
            if text == name@ {
                assert(after[position as int] == text);
            }
            if after.contains(text) {
                let at = choose|at: int| 0 <= at < after.len() && after[at] == text;
                if at < position {
                    assert(before[at] == text);
                } else if at > position {
                    assert(before[at - 1] == text);
                }
            }
        }
        assert(after.to_set() =~= before.to_set().insert(name@));
    }
}

/// The interfaces that the clients, one after the other, are offered.
pub open spec fn offered_to(sessions: Map<u64, SessionView>, ids: Seq<u64>) -> Set<Seq<char>>
    decreases ids.len(),
{
    if ids.len() == 0 {
        Set::empty()
    } else {
        offered_to(sessions, ids.drop_last()).union(
            interfaces_of(sessions[ids.last()].backend_globals).to_set(),
        )
    }
}

/// The interfaces of the globals that the proxy offers of its own.
pub open spec fn own_interfaces(own: Seq<registry::GeneratedGlobalSpec>) -> Set<Seq<char>> {
    own.map_values(|global: registry::GeneratedGlobalSpec| global.interface_name@).to_set()
}

impl ServerView {
    /// The interfaces of all globals that are offered to anyone.
    pub open spec fn all_interfaces(self) -> Set<Seq<char>> {
        own_interfaces(self.registry.own_globals()).insert("wl_shm"@).union(
            offered_to(self.sessions, table::in_order(self.sessions.dom())),
        )
    }
}

fn insert_names(names: &mut Vec<String>, added: &Vec<String>)
    requires
        in_text_order(text_values(old(names)@)),
    ensures
        in_text_order(text_values(final(names)@)),
        text_values(final(names)@).to_set() == text_values(old(names)@).to_set().union(
            text_values(added@).to_set(),
        ),
{
    let ghost before = text_values(names@).to_set();
    let ghost values = text_values(added@);
    let mut index: usize = 0;
    proof {
        assert(values.take(0).to_set() =~= Set::<Seq<char>>::empty());
        assert(before.union(values.take(0).to_set()) =~= before);
    }
    while index < added.len()
        invariant
            index <= added@.len(),
            values == text_values(added@),
            in_text_order(text_values(names@)),
            text_values(names@).to_set() == before.union(values.take(index as int).to_set()),
        decreases added@.len() - index,
    {
        insert_name(names, added[index].as_str());
        proof {
            let shorter = values.take(index as int);
            let longer = values.take(index + 1);
            assert(longer =~= shorter.push(values[index as int]));
            assert forall|text: Seq<char>| longer.to_set().contains(text)
                == shorter.to_set().insert(values[index as int]).contains(text) by {
                if shorter.contains(text) {
                    let at = choose|at: int| 0 <= at < shorter.len() && shorter[at] == text;
                    assert(longer[at] == text);
                }
                if text == values[index as int] {
                    assert(longer[index as int] == text);
                }
                if longer.contains(text) {
                    let at = choose|at: int| 0 <= at < longer.len() && longer[at] == text;
                    if at < index {
                        assert(shorter[at] == text);
                    }
                }
            }
            assert(longer.to_set() =~= shorter.to_set().insert(values[index as int]));
            assert(before.union(longer.to_set()) =~= before.union(shorter.to_set()).insert(
                values[index as int],
            ));
        }
        index = index + 1;
    }
    proof {
        assert(values.take(index as int) =~= values);
    }
}

fn interface_names(known: &Vec<WaylandGlobalInfo>) -> (names: Vec<String>)
    ensures
        text_values(names@) == interfaces_of(globals::global_values(known@)),
{
    let mut names: Vec<String> = Vec::new();
    let mut index: usize = 0;
    while index < known.len()
        invariant
            index <= known@.len(),
            names@.len() == index,
            forall|i: int| 0 <= i < index ==> (#[trigger] names@[i])@ == known@[i].interface@,
        decreases known@.len() - index,
    {
        names.push(known[index].interface.clone());
        index = index + 1;
    }
    proof {
        assert(text_values(names@) =~= interfaces_of(globals::global_values(known@)));
    }
    names
}

fn describe(session: &WaylandClientSession) -> (told: WaylandSessionSnapshot)
    ensures
        describes(told, session@),
{
    WaylandSessionSnapshot {
        client_id: session.client_id.0,
        backend_globals: interface_names(&session.backend_globals),
        mapped_resource_count: session.resource_map.len(),
        tracked_surface_count: session.frame_tracker.surface_count(),
        latest_commit_serial: session.frame_tracker.latest_commit_serial(),
    }
}

fn copy_entry(entry: &WaylandConnectionHistoryEntry) -> (copy: WaylandConnectionHistoryEntry)
    ensures
        copy@ == entry@,
{
    WaylandConnectionHistoryEntry {
        timestamp_unix_ms: entry.timestamp_unix_ms,
        event: entry.event.clone(),
        client_id: entry.client_id,
        endpoint_state: entry.endpoint_state.clone(),
        detail: copy_text(&entry.detail),
    }
}

fn copy_history(entries: &Vec<WaylandConnectionHistoryEntry>) -> (copies: Vec<
    WaylandConnectionHistoryEntry,
>)
    ensures
        server::history_values(copies@) == server::history_values(entries@),
{
    let mut copies: Vec<WaylandConnectionHistoryEntry> = Vec::new();
    let mut index: usize = 0;
    while index < entries.len()
        invariant
            index <= entries@.len(),
            copies@.len() == index,
            forall|i: int| 0 <= i < index ==> (#[trigger] copies@[i])@ == entries@[i]@,
        decreases entries@.len() - index,
    {
        copies.push(copy_entry(&entries[index]));
        index = index + 1;
    }
    proof {
        assert(server::history_values(copies@) =~= server::history_values(entries@));
    }
    copies
}

/// Whether a caller is told of the proxy what is so, except for its endpoint.
pub open spec fn describes_proxy(told: WaylandBackendSnapshot, proxy: ServerView) -> bool {
    let ids = table::in_order(proxy.sessions.dom());
    &&& told.socket_name@ == proxy.socket_name
    &&& told.backend_socket@ == proxy.backend_socket
    &&& told.session_count == proxy.sessions.dom().len()
    &&& in_text_order(text_values(told.registered_globals@))
    &&& text_values(told.registered_globals@).to_set() == proxy.all_interfaces()
    &&& text_values(told.registered_intercepts@) == proxy.registry.hooked_names(
        messages::all_hooks(),
    )
    &&& server::history_values(told.connection_history@) == proxy.history
    &&& told.sessions@.len() == ids.len()
    &&& forall|i: int|
        0 <= i < ids.len() ==> describes(#[trigger] told.sessions@[i], proxy.sessions[ids[i]])
}

impl WaylandProxyServer {
    /// Tells a caller of the proxy. Of its endpoint nothing is known here.
    pub fn snapshot(&self) -> (told: WaylandBackendSnapshot)
        ensures
            describes_proxy(told, self@),
            told.socket_path is None,
            told.running == self@.running,
            told.launch_preflight@ == PreflightView::unavailable(None),
            text::optional(told.last_runtime_error) == self@.last_error,
    {
        let keys = self.sessions.keys();
        let ghost ids = keys@;
        let mut sessions: Vec<WaylandSessionSnapshot> = Vec::new();
        let mut offered: Vec<String> = Vec::new();
        let mut index: usize = 0;
        proof {
            assert(ids.take(0) =~= Seq::<u64>::empty());
            assert(text_values(offered@).to_set() =~= Set::<Seq<char>>::empty());
        }
        while index < keys.len()
            invariant
                index <= keys@.len(),
                ids == keys@,
                forall|i: int| 0 <= i < keys@.len() ==> self.sessions@.contains_key(
                    #[trigger] keys@[i],
                ),
                sessions@.len() == index,
                forall|i: int|
                    0 <= i < index ==> describes(
                        #[trigger] sessions@[i],
                        self.sessions@[ids[i]],
                    ),
                in_text_order(text_values(offered@)),
                text_values(offered@).to_set() == offered_to(
                    self.sessions@,
                    ids.take(index as int),
                ),
            decreases keys@.len() - index,
        {
            proof {
                assert(ids.take(index + 1).drop_last() =~= ids.take(index as int));
                assert(ids.take(index + 1).last() == ids[index as int]);
            }
            if let Some(session) = self.sessions.get(keys[index]) {
                sessions.push(describe(session));
                insert_names(&mut offered, &interface_names(&session.backend_globals));
            }
            index = index + 1;
        }
        proof {
            assert(ids.take(index as int) =~= ids);
        }
        let own = self.registry.global_names();
        let ghost expected = self@.registry.own_globals().map_values(
            |global: registry::GeneratedGlobalSpec| global.interface_name@,
        );
        proof {
            assert(text_values(own@) =~= expected);
        }
        let mut registered_globals: Vec<String> = Vec::new();
        proof {
            assert(text_values(registered_globals@).to_set() =~= Set::<Seq<char>>::empty());
        }
        insert_names(&mut registered_globals, &own);
        insert_name(&mut registered_globals, "wl_shm");
        insert_names(&mut registered_globals, &offered);
        proof {
            assert(text_values(registered_globals@).to_set() =~= self@.all_interfaces());
        }
        WaylandBackendSnapshot {
            socket_name: self.config.socket_name.clone(),
            socket_path: None,
            backend_socket: self.config.backend_socket.clone(),
            running: self.running,
            launch_preflight: WaylandLaunchPreflight::unavailable(None),
            session_count: self.sessions.len(),
            registered_globals,
            registered_intercepts: self.registry.intercept_names(),
            last_runtime_error: copy_text(&self.last_runtime_error),
            connection_history: copy_history(&self.connection_history),
            sessions,
        }
    }

    /// The globals that the proxy offers a client of its own, numbered from
    /// one on.
    pub fn synthetic_backend_globals(&self) -> (offered: Vec<WaylandGlobalInfo>)
        ensures
            offered@.len() == self@.registry.own_globals().len(),
            forall|i: int|
                0 <= i < offered@.len() ==> (#[trigger] offered@[i])@ == (GlobalView {
                    name: (i + 1) as u32,
                    interface: self@.registry.own_globals()[i].interface_name@,
                    version: self@.registry.own_globals()[i].version,
                }),
    {
        let specs = self.registry.global_specs();
        let mut offered: Vec<WaylandGlobalInfo> = Vec::new();
        let mut index: usize = 0;
        while index < specs.len()
            invariant
                index <= specs@.len(),
                specs@.len() == self@.registry.own_globals().len(),
                forall|i: int|
                    0 <= i < specs@.len() ==> globals::binds(
                        #[trigger] specs@[i],
                        self@.registry.own_globals()[i],
                    ),
                offered@.len() == index,
                forall|i: int|
                    0 <= i < index ==> (#[trigger] offered@[i])@ == (GlobalView {
                        name: (i + 1) as u32,
                        interface: self@.registry.own_globals()[i].interface_name@,
                        version: self@.registry.own_globals()[i].version,
                    }),
            decreases specs@.len() - index,
        {
            proof {
                assert(globals::binds(specs@[index as int], self@.registry.own_globals()[index as int]));
            }
            let number: u32 = (index as u64 + 1) as u32;
            offered.push(
                WaylandGlobalInfo {
                    name: number,
                    interface: specs[index].interface.clone(),
                    version: specs[index].version,
                },
            );
            index = index + 1;
        }
        offered
    }
}

/// Why clients cannot connect, as far as it is known.
pub open spec fn transport_error(
    endpoint: Option<EndpointView>,
    startup_error: Option<Seq<char>>,
) -> Option<Seq<char>> {
    match endpoint {
        Some(found) => found.error(),
        None => match startup_error {
            Some(message) => Some(message),
            None => Some("Wayland proxy transport is not initialized"@),
        },
    }
}

/// Adds to what a caller is told of the proxy what is known of its endpoint.
/// The proxy runs where clients can connect, whether or not there is one.
pub fn with_endpoint(
    told: WaylandBackendSnapshot,
    endpoint: &Option<Endpoint>,
    startup_error: &Option<String>,
) -> (complete: WaylandBackendSnapshot)
    ensures
        ({
            let found = launch::optional_endpoint(*endpoint);
            let error = transport_error(found, text::optional(*startup_error));
            &&& complete.running == (error is None)
            &&& text::optional(complete.socket_path) == (match found {
                Some(known) => Some(known.socket_path),
                None => None::<Seq<char>>,
            })
            &&& complete.launch_preflight@ == (match found {
                Some(known) => known.preflight(),
                None => PreflightView::unavailable(error),
            })
            &&& text::optional(complete.last_runtime_error) == (match told.last_runtime_error {
                Some(message) => Some(message@),
                None => error,
            })
            &&& complete.socket_name == told.socket_name
            &&& complete.backend_socket == told.backend_socket
            &&& complete.session_count == told.session_count
            &&& complete.registered_globals == told.registered_globals
            &&& complete.registered_intercepts == told.registered_intercepts
            &&& complete.connection_history == told.connection_history
            &&& complete.sessions == told.sessions
        }),
{
    let error = match endpoint {
        Some(found) => found.availability_error(),
        None => match startup_error {
            Some(message) => Some(message.clone()),
            None => Some("Wayland proxy transport is not initialized".to_owned()),
        },
    };
    let mut complete = told;
    complete.running = error.is_none();
    complete.socket_path = match endpoint {
        Some(found) => Some(found.socket_path.clone()),
        None => None,
    };
    complete.launch_preflight = match endpoint {
        Some(found) => found.launch_preflight(),
        None => WaylandLaunchPreflight::unavailable(copy_text(&error)),
    };
    if complete.last_runtime_error.is_none() {
        complete.last_runtime_error = error;
    }
    complete
}

proof fn decimal_has_no_dash(n: nat, i: int)
    requires
        0 <= i < text::decimal(n).len(),
    ensures
        text::decimal(n)[i] != '-',
    decreases n,
{
    if n >= 10 {
        if i < text::decimal(n / 10).len() {
            decimal_has_no_dash(n / 10, i);
        }
    }
}

/// The name of a client's window.
pub open spec fn client_window_name(client_id: u64, number: u64) -> Seq<char> {
    tracker::window_name("wayland-client-"@ + text::decimal(client_id as nat), number)
}

/// Windows of different clients have different names, so that a name means one
/// window only.
pub proof fn window_names_of_clients_differ(a: u64, m: u64, b: u64, n: u64)
    requires
        client_window_name(a, m) == client_window_name(b, n),
    ensures
        a == b,
        m == n,
{
    let head = "wayland-client-"@;
    let middle = "-window-"@;
    let of_a = text::decimal(a as nat);
    let of_b = text::decimal(b as nat);
    let tail_a = of_a + (middle + text::decimal(m as nat));
    let tail_b = of_b + (middle + text::decimal(n as nat));
    reveal_strlit("-window-");
    assert(client_window_name(a, m).skip(head.len() as int) =~= tail_a);
    assert(client_window_name(b, n).skip(head.len() as int) =~= tail_b);
    if of_a.len() < of_b.len() {
        decimal_has_no_dash(b as nat, of_a.len() as int);
        assert(tail_a[of_a.len() as int] == middle[0]);
        assert(tail_b[of_a.len() as int] == of_b[of_a.len() as int]);
    } else if of_b.len() < of_a.len() {
        decimal_has_no_dash(a as nat, of_b.len() as int);
        assert(tail_b[of_b.len() as int] == middle[0]);
        assert(tail_a[of_b.len() as int] == of_a[of_b.len() as int]);
    } else {
        assert(tail_a.take(of_a.len() as int) =~= of_a);
        assert(tail_b.take(of_b.len() as int) =~= of_b);
        text::decimal_is_injective(a as nat, b as nat);
        tracker::window_names_differ("wayland-client-"@ + of_a, m, n);
    }
}

} // verus!
