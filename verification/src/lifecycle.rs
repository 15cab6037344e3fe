//! The service lifecycle: the two sessions, their cancellation tokens, and
//! the idempotent start/stop transitions.
//!
//! `NetworkState` owns the externally visible status of the discovery service
//! and of the data server, plus one cancellation token per service, so that at
//! most one instance of each runs per process. Starting is split in two: a
//! begin step that decides whether a new session may start (and with which
//! parameters), and a commit step that installs it once the caller has bound
//! the socket or listener. A start while active and a stop while inactive are
//! no-ops that return the current snapshot.
use vstd::prelude::*;
use crate::messages::AnnounceContext;
use crate::registry::ClientRegistry;
use vstd::string::StringExecFns;

verus! {

/// Spec-level image of a `DiscoveryStatus`.
pub ghost struct DiscoveryModel {
    pub active: bool,
    pub port: u16,
    pub server_name: Seq<char>,
    pub discovered_clients: Seq<Seq<char>>,
}

/// Spec-level image of a `DataServerStatus`.
pub ghost struct DataServerModel {
    pub running: bool,
    pub port: u16,
    pub received_data_count: usize,
    pub ip_address: Seq<char>,
}

/// Spec-level image of a `NetworkState`.
pub ghost struct NetworkModel {
    pub discovery: DiscoveryModel,
    pub data_server: DataServerModel,
    pub discovery_signal: Option<u64>,
    pub server_signal: Option<u64>,
    pub next_signal: u64,
}

/// Externally visible state of the LAN discovery service.
pub struct DiscoveryStatus {
    /// Whether a discovery session is live.
    pub active: bool,
    /// The UDP port the session's listener is bound to.
    pub port: u16,
    /// The advertised server name.
    pub server_name: String,
    /// The peers discovered during the current session.
    pub discovered_clients: Vec<String>,
}

impl View for DiscoveryStatus {
    type V = DiscoveryModel;

    open spec fn view(&self) -> DiscoveryModel {
        DiscoveryModel {
            active: self.active,
            port: self.port,
            server_name: self.server_name@,
            discovered_clients: self.discovered_clients.deep_view(),
        }
    }
}

/// A discovery session after `stop`: a no-op while inactive, else the flag
/// flips and the member list empties; name and port are retained.
pub open spec fn stop_discovery_session(d: DiscoveryModel) -> DiscoveryModel {
    if d.active {
        DiscoveryModel { active: false, discovered_clients: Seq::empty(), ..d }
    } else {
        d
    }
}

/// A data server session after `stop`: a no-op while stopped, else the flag
/// flips; port, counter and address are retained.
pub open spec fn stop_server_session(d: DataServerModel) -> DataServerModel {
    if d.running {
        DataServerModel { running: false, ..d }
    } else {
        d
    }
}

impl DiscoveryStatus {
    /// The parameters a new discovery session would start with, or `None`
    /// while one is active: a second `start` is a no-op and must not bind a
    /// second socket, so the caller binds only on `Some`.
    pub fn begin_start(&self, port: Option<u16>, name: Option<String>) -> (r: Option<
        (u16, String),
    >)
        ensures
            r is None <==> self.active,
            r matches Some(plan) ==> plan.0 == chosen_discovery_port_spec(port) && plan.1@
                == chosen_server_name(name.deep_view()),
    {
        if self.active {
            return None;
        }
        let p = match port {
            Some(p) => p,
            None => crate::DEFAULT_DISCOVERY_PORT,
        };
        let n = match name {
            Some(n) => n,
            None => String::from_str("DrillTrack"),
        };
        Some((p, n))
    }

    /// Installs the session that `begin_start` planned, once the caller has
    /// bound the listener socket: the session turns active with an empty
    /// member list, and the announce context is returned for the broadcaster
    /// and listener tasks. `http_port` is the ingestion port the caller
    /// captured as a read-only snapshot for the announcements.
    pub fn commit_start(&mut self, port: u16, name: String, http_port: u16, all_ips: Vec<String>)
        -> (ctx: AnnounceContext)
        requires
            !old(self).active,
            all_ips@.len() >= 1,
        ensures
            final(self)@ == (DiscoveryModel {
                active: true,
                port: port,
                server_name: name@,
                discovered_clients: Seq::empty(),
            }),
            ctx.wf(),
            ctx.name@ == name@,
            ctx.http_port == http_port,
            ctx.discovery_port == port,
            ctx.all_ips.deep_view() == all_ips.deep_view(),
    {
        self.active = true;
        self.port = port;
        self.server_name = name.clone();
        self.discovered_clients = Vec::new();
        let ctx = AnnounceContext { name, http_port, discovery_port: port, all_ips };
        proof {
            assert(self.discovered_clients.deep_view() =~= Seq::<Seq<char>>::empty());
        }
        ctx
    }

    /// Stops the session: a no-op while inactive, else the flag flips and the
    /// member list is cleared; either way the resulting snapshot is returned.
    pub fn stop(&mut self) -> (r: DiscoveryStatus)
        ensures
            final(self)@ == stop_discovery_session(old(self)@),
            r@ == final(self)@,
    {
        if self.active {
            self.active = false;
            self.discovered_clients = Vec::new();
            proof {
                assert(self.discovered_clients.deep_view() =~= Seq::<Seq<char>>::empty());
            }
        }
        self.snapshot()
    }

    /// An independent copy of the snapshot.
    pub fn snapshot(&self) -> (r: DiscoveryStatus)
        ensures
            r@ == self@,
    {
        let r = DiscoveryStatus {
            active: self.active,
            port: self.port,
            server_name: self.server_name.clone(),
            discovered_clients: self.discovered_clients.clone(),
        };
        proof {
            assert(r.discovered_clients.deep_view() =~= self.discovered_clients.deep_view());
        }
        r
    }

    /// Copies the registry's current members into the snapshot for external
    /// visibility, as the status-refresh task does once per tick; the result
    /// says whether the session is still active and the task should go on.
    pub fn refresh_discovered(&mut self, reg: &ClientRegistry) -> (keep_going: bool)
        ensures
            final(self)@ == (DiscoveryModel { discovered_clients: reg@, ..old(self)@ }),
            keep_going == old(self).active,
    {
        self.discovered_clients = reg.snapshot();
        self.active
    }
}

/// Externally visible state of the HTTP data server.
pub struct DataServerStatus {
    /// Whether the server is accepting requests.
    pub running: bool,
    /// The TCP port the server is bound to.
    pub port: u16,
    /// How many ingestion requests have fully succeeded this session.
    pub received_data_count: usize,
    /// The primary local address, for display.
    pub ip_address: String,
}

impl View for DataServerStatus {
    type V = DataServerModel;

    open spec fn view(&self) -> DataServerModel {
        DataServerModel {
            running: self.running,
            port: self.port,
            received_data_count: self.received_data_count,
            ip_address: self.ip_address@,
        }
    }
}

impl DataServerStatus {
    /// The port a new data server would start on, or `None` while one runs:
    /// a second `start` is a no-op and must not bind a second listener, so
    /// the caller binds only on `Some`.
    pub fn begin_start(&self, port: Option<u16>) -> (r: Option<u16>)
        ensures
            r is None <==> self.running,
            r matches Some(p) ==> p == chosen_http_port(port),
    {
        if self.running {
            return None;
        }
        match port {
            Some(p) => Some(p),
            None => Some(crate::DEFAULT_HTTP_PORT),
        }
    }

    /// Installs the session that `begin_start` planned, once the caller has
    /// bound the HTTP listener: the server turns running on the given port
    /// with a zero request counter and adopts the primary address for
    /// display.
    pub fn commit_start(&mut self, port: u16, all_ips: &Vec<String>)
        requires
            !old(self).running,
            all_ips@.len() >= 1,
        ensures
            final(self)@ == (DataServerModel {
                running: true,
                port: port,
                received_data_count: 0,
                ip_address: all_ips.deep_view()[0],
            }),
    {
        self.running = true;
        self.port = port;
        self.received_data_count = 0;
        self.ip_address = all_ips[0].clone();
        proof {
            assert(self.ip_address@ == all_ips.deep_view()[0]);
        }
    }

    /// Stops the session: a no-op while stopped, else the flag flips — the
    /// counter is retained; either way the resulting snapshot is returned.
    pub fn stop(&mut self) -> (r: DataServerStatus)
        ensures
            final(self)@ == stop_server_session(old(self)@),
            r@ == final(self)@,
    {
        if self.running {
            self.running = false;
        }
        self.snapshot()
    }

    /// Adopts the given address as the one shown for this server, as a
    /// discovery start does with the primary address it resolved.
    pub fn adopt_display_address(&mut self, ip: &String)
        ensures
            final(self)@ == (DataServerModel { ip_address: ip@, ..old(self)@ }),
    {
        self.ip_address = ip.clone();
    }

    /// An independent copy of the snapshot.
    pub fn snapshot(&self) -> (r: DataServerStatus)
        ensures
            r@ == self@,
    {
        DataServerStatus {
            running: self.running,
            port: self.port,
            received_data_count: self.received_data_count,
            ip_address: self.ip_address.clone(),
        }
    }

    /// Copies the shared request counter into the snapshot, as the
    /// counter-sync task does once per second while the server runs; the
    /// result says whether the server is still running and the task should go
    /// on.
    pub fn sync_received(&mut self, count: usize) -> (keep_going: bool)
        ensures
            old(self).running ==> final(self)@ == (DataServerModel {
                received_data_count: count,
                ..old(self)@
            }),
            !old(self).running ==> final(self)@ == old(self)@,
            keep_going == old(self).running,
    {
        if self.running {
            self.received_data_count = count;
            true
        } else {
            false
        }
    }
}

/// The whole service lifecycle state: both sessions and their cancellation
/// tokens. A token is present exactly while the owning service is live; the
/// caller maps each token to the background tasks it spawned, and `stop`
/// surrenders the token so those tasks can be signalled.
pub struct NetworkState {
    /// The discovery session snapshot.
    pub discovery: DiscoveryStatus,
    /// The data server session snapshot.
    pub data_server: DataServerStatus,
    /// Cancellation token of the live discovery session.
    pub discovery_signal: Option<u64>,
    /// Cancellation token of the live data server.
    pub server_signal: Option<u64>,
    /// The next unused token.
    pub next_signal: u64,
}

impl View for NetworkState {
    type V = NetworkModel;

    open spec fn view(&self) -> NetworkModel {
        NetworkModel {
            discovery: self.discovery@,
            data_server: self.data_server@,
            discovery_signal: self.discovery_signal,
            server_signal: self.server_signal,
            next_signal: self.next_signal,
        }
    }
}

/// A service is live exactly while its cancellation token is held.
pub open spec fn model_wf(m: NetworkModel) -> bool {
    &&& m.discovery.active <==> m.discovery_signal is Some
    &&& m.data_server.running <==> m.server_signal is Some
}

/// The port a discovery session starts with: the requested one or the default.
pub open spec fn chosen_discovery_port_spec(requested: Option<u16>) -> u16 {
    match requested {
        Some(p) => p,
        None => crate::DEFAULT_DISCOVERY_PORT,
    }
}

/// The name a discovery session starts with: the requested one or the default.
pub open spec fn chosen_server_name(requested: Option<Seq<char>>) -> Seq<char> {
    match requested {
        Some(n) => n,
        None => "DrillTrack"@,
    }
}

/// The port the data server starts with: the requested one or the default.
pub open spec fn chosen_http_port(requested: Option<u16>) -> u16 {
    match requested {
        Some(p) => p,
        None => crate::DEFAULT_HTTP_PORT,
    }
}

/// The state after a new discovery session with the given parameters is
/// installed over an inactive one.
pub open spec fn start_discovery_model(
    m: NetworkModel,
    port: u16,
    name: Seq<char>,
    ips: Seq<Seq<char>>,
) -> NetworkModel {
    NetworkModel {
        discovery: DiscoveryModel {
            active: true,
            port: port,
            server_name: name,
            discovered_clients: Seq::empty(),
        },
        data_server: DataServerModel { ip_address: ips[0], ..m.data_server },
        discovery_signal: Some(m.next_signal),
        next_signal: (m.next_signal + 1) as u64,
        ..m
    }
}

/// One whole `start` command of the discovery service: a no-op while a
/// session is active, else a fresh session with the requested or default
/// parameters.
pub open spec fn discovery_start_step(
    m: NetworkModel,
    port: Option<u16>,
    name: Option<Seq<char>>,
    ips: Seq<Seq<char>>,
) -> NetworkModel {
    if m.discovery.active {
        m
    } else {
        start_discovery_model(m, chosen_discovery_port_spec(port), chosen_server_name(name), ips)
    }
}

/// The state after a `stop` of the discovery service: a no-op while inactive,
/// else the flag flips, the member list empties and the token is surrendered.
pub open spec fn stop_discovery_model(m: NetworkModel) -> NetworkModel {
    if m.discovery.active {
        NetworkModel {
            discovery: DiscoveryModel {
                active: false,
                discovered_clients: Seq::empty(),
                ..m.discovery
            },
            discovery_signal: None,
            ..m
        }
    } else {
        m
    }
}

/// The state after a new data server on the given port is installed over a
/// stopped one; the request counter restarts at zero.
pub open spec fn start_server_model(m: NetworkModel, port: u16, ip: Seq<char>) -> NetworkModel {
    NetworkModel {
        data_server: DataServerModel {
            running: true,
            port: port,
            received_data_count: 0,
            ip_address: ip,
        },
        server_signal: Some(m.next_signal),
        next_signal: (m.next_signal + 1) as u64,
        ..m
    }
}

/// One whole `start` command of the data server: a no-op while running, else
/// a fresh session on the requested or default port.
pub open spec fn server_start_step(
    m: NetworkModel,
    port: Option<u16>,
    ip: Seq<char>,
) -> NetworkModel {
    if m.data_server.running {
        m
    } else {
        start_server_model(m, chosen_http_port(port), ip)
    }
}

/// The state after a `stop` of the data server: a no-op while stopped, else
/// the flag flips and the token is surrendered; the counter is retained.
pub open spec fn stop_server_model(m: NetworkModel) -> NetworkModel {
    if m.data_server.running {
        NetworkModel {
            data_server: DataServerModel { running: false, ..m.data_server },
            server_signal: None,
            ..m
        }
    } else {
        m
    }
}

impl Default for NetworkState {
    /// Both services stopped, with the default ports, name, loopback display
    /// address and a zero counter.
    fn default() -> (r: NetworkState)
        ensures
            !r.discovery.active,
            r.discovery.port == 9090,
            r.discovery.server_name@ == "DrillTrack"@,
            r.discovery.discovered_clients.deep_view() == Seq::<Seq<char>>::empty(),
            !r.data_server.running,
            r.data_server.port == 8080,
            r.data_server.received_data_count == 0,
            r.data_server.ip_address@ == "127.0.0.1"@,
            r.discovery_signal is None,
            r.server_signal is None,
            r.next_signal == 0,
            model_wf(r@),
    {
        let r = NetworkState {
            discovery: DiscoveryStatus {
                active: false,
                port: 9090,
                server_name: String::from_str("DrillTrack"),
                discovered_clients: Vec::new(),
            },
            data_server: DataServerStatus {
                running: false,
                port: 8080,
                received_data_count: 0,
                ip_address: String::from_str("127.0.0.1"),
            },
            discovery_signal: None,
            server_signal: None,
            next_signal: 0,
        };
        proof {
            assert(r.discovery.discovered_clients.deep_view() =~= Seq::<Seq<char>>::empty());
        }
        r
    }
}

impl NetworkState {
    /// A read-only snapshot of the discovery session.
    pub fn get_discovery_status(&self) -> (r: DiscoveryStatus)
        ensures
            r@ == self.discovery@,
    {
        self.discovery.snapshot()
    }

    /// A read-only snapshot of the data server session.
    pub fn get_data_server_status(&self) -> (r: DataServerStatus)
        ensures
            r@ == self.data_server@,
    {
        self.data_server.snapshot()
    }

    /// The parameters a new discovery session would start with, or `None`
    /// while one is active: a second `start` is a no-op and must not bind a
    /// second socket, so the caller binds only on `Some`.
    pub fn begin_start_discovery(&self, port: Option<u16>, name: Option<String>) -> (r: Option<
        (u16, String),
    >)
        ensures
            r is None <==> self.discovery.active,
            r matches Some(plan) ==> plan.0 == chosen_discovery_port_spec(port) && plan.1@
                == chosen_server_name(name.deep_view()),
    {
        self.discovery.begin_start(port, name)
    }

    /// Installs the discovery session that `begin_start_discovery` planned,
    /// once the caller has bound the listener socket: the session turns
    /// active with an empty member list, the data server snapshot adopts the
    /// primary address for display, a fresh cancellation token is recorded,
    /// and the announce context — with the HTTP port captured now — is
    /// returned for the broadcaster and listener tasks.
    pub fn commit_start_discovery(&mut self, port: u16, name: String, all_ips: Vec<String>) -> (ctx:
        AnnounceContext)
        requires
            !old(self).discovery.active,
            all_ips@.len() >= 1,
            old(self).next_signal < u64::MAX,
        ensures
            final(self)@ == start_discovery_model(old(self)@, port, name@, all_ips.deep_view()),
            model_wf(old(self)@) ==> model_wf(final(self)@),
            ctx.wf(),
            ctx.name@ == name@,
            ctx.http_port == old(self).data_server.port,
            ctx.discovery_port == port,
            ctx.all_ips.deep_view() == all_ips.deep_view(),
    {
        let http_port = self.data_server.port;
        let ctx = self.discovery.commit_start(port, name, http_port, all_ips);
        self.data_server.adopt_display_address(ctx.primary_ip());
        self.discovery_signal = Some(self.next_signal);
        self.next_signal = self.next_signal + 1;
        ctx
    }

    /// Stops the discovery service: a no-op returning the current snapshot
    /// while inactive; else the session flag flips, the member list is
    /// cleared, and the cancellation token is surrendered for the caller to
    /// signal the announce and listener tasks.
    pub fn stop_discovery(&mut self) -> (r: DiscoveryStatus)
        ensures
            final(self)@ == stop_discovery_model(old(self)@),
            r@ == final(self).discovery@,
            model_wf(old(self)@) ==> model_wf(final(self)@),
    {
        if self.discovery.active {
            self.discovery_signal = None;
        }
        self.discovery.stop()
    }

    /// The port a new data server would start on, or `None` while one runs:
    /// a second `start` is a no-op and must not bind a second listener.
    pub fn begin_start_data_server(&self, port: Option<u16>) -> (r: Option<u16>)
        ensures
            r is None <==> self.data_server.running,
            r matches Some(p) ==> p == chosen_http_port(port),
    {
        self.data_server.begin_start(port)
    }

    /// Installs the data server session that `begin_start_data_server`
    /// planned, once the caller has bound the HTTP listener: the server turns
    /// running on the given port with a zero request counter, adopts the
    /// primary address for display, and a fresh cancellation token is
    /// recorded for the graceful-shutdown signal.
    pub fn commit_start_data_server(&mut self, port: u16, all_ips: &Vec<String>)
        requires
            !old(self).data_server.running,
            all_ips@.len() >= 1,
            old(self).next_signal < u64::MAX,
        ensures
            final(self)@ == start_server_model(old(self)@, port, all_ips.deep_view()[0]),
            model_wf(old(self)@) ==> model_wf(final(self)@),
    {
        self.data_server.commit_start(port, all_ips);
        self.server_signal = Some(self.next_signal);
        self.next_signal = self.next_signal + 1;
    }

    /// Stops the data server: a no-op returning the current snapshot while
    /// stopped; else the flag flips — the counter is retained — and the
    /// cancellation token is surrendered for the caller to trigger the
    /// graceful shutdown.
    pub fn stop_data_server(&mut self) -> (r: DataServerStatus)
        ensures
            final(self)@ == stop_server_model(old(self)@),
            r@ == final(self).data_server@,
            model_wf(old(self)@) ==> model_wf(final(self)@),
    {
        if self.data_server.running {
            self.server_signal = None;
        }
        self.data_server.stop()
    }
}

/// Starting twice in any way binds once: after any `start` command the
/// session is active, so a second `start` — whatever its parameters — leaves
/// the state exactly as it was and returns the session the first call
/// established.
pub proof fn lemma_discovery_start_idempotent(
    m: NetworkModel,
    first_port: Option<u16>,
    first_name: Option<Seq<char>>,
    first_ips: Seq<Seq<char>>,
    second_port: Option<u16>,
    second_name: Option<Seq<char>>,
    second_ips: Seq<Seq<char>>,
)
    ensures
        discovery_start_step(m, first_port, first_name, first_ips).discovery.active,
        discovery_start_step(
            discovery_start_step(m, first_port, first_name, first_ips),
            second_port,
            second_name,
            second_ips,
        ) == discovery_start_step(m, first_port, first_name, first_ips),
{
}

/// The same for the data server: a second `start` while running is a no-op.
pub proof fn lemma_server_start_idempotent(
    m: NetworkModel,
    first_port: Option<u16>,
    first_ip: Seq<char>,
    second_port: Option<u16>,
    second_ip: Seq<char>,
)
    ensures
        server_start_step(m, first_port, first_ip).data_server.running,
        server_start_step(server_start_step(m, first_port, first_ip), second_port, second_ip)
            == server_start_step(m, first_port, first_ip),
{
}

/// Stopping twice stops once: a second `stop` finds the service inactive and
/// is a no-op, returning the already-stopped state unchanged.
pub proof fn lemma_discovery_stop_idempotent(m: NetworkModel)
    ensures
        !m.discovery.active ==> stop_discovery_model(m) == m,
        stop_discovery_model(stop_discovery_model(m)) == stop_discovery_model(m),
{
}

/// The same for the data server: a second `stop` while stopped is a no-op.
pub proof fn lemma_server_stop_idempotent(m: NetworkModel)
    ensures
        !m.data_server.running ==> stop_server_model(m) == m,
        stop_server_model(stop_server_model(m)) == stop_server_model(m),
{
}

} // verus!
