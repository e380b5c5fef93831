//! The IBC data that the host keeps and checks: heights, connection and channel
//! ends, versions and packets.
use vstd::prelude::*;

use crate::store::KeyLike;
use crate::types::{ChannelId, ClientId, ConnectionId, PortId};

verus! {

/// A block height: a revision number and a height within that revision.
#[derive(Debug, Clone, Copy, PartialEq, Eq, Structural)]
pub struct Height {
    pub revision_number: u64,
    pub revision_height: u64,
}

/// Heights are ordered by revision number first, then by height.
pub open spec fn height_lt(a: Height, b: Height) -> bool {
    a.revision_number < b.revision_number || (a.revision_number == b.revision_number
        && a.revision_height < b.revision_height)
}

pub open spec fn height_le(a: Height, b: Height) -> bool {
    height_lt(a, b) || a == b
}

impl Height {
    pub fn new(revision_number: u64, revision_height: u64) -> (r: Height)
        ensures
            r.revision_number == revision_number,
            r.revision_height == revision_height,
    {
        Height { revision_number, revision_height }
    }

    /// `self < other` in the order of heights.
    pub fn lt(&self, other: &Height) -> (r: bool)
        ensures
            r == height_lt(*self, *other),
    {
        self.revision_number < other.revision_number || (self.revision_number
            == other.revision_number && self.revision_height < other.revision_height)
    }

    /// `self <= other` in the order of heights.
    pub fn le(&self, other: &Height) -> (r: bool)
        ensures
            r == height_le(*self, *other),
    {
        self.lt(other) || (self.revision_number == other.revision_number && self.revision_height
            == other.revision_height)
    }
}

/// The height after which a packet times out, if any.
#[derive(Debug, Clone, Copy, PartialEq, Eq, Structural)]
pub enum TimeoutHeight {
    Never,
    At(Height),
}

/// A packet with this timeout height has expired at `height`.
pub open spec fn timeout_expired(t: TimeoutHeight, height: Height) -> bool {
    match t {
        TimeoutHeight::Never => false,
        TimeoutHeight::At(h) => height_le(h, height),
    }
}

/// The revision number that a packet commitment records for a timeout height.
pub open spec fn timeout_revision_number(t: TimeoutHeight) -> u64 {
    match t {
        TimeoutHeight::Never => 0,
        TimeoutHeight::At(h) => h.revision_number,
    }
}

/// The revision height that a packet commitment records for a timeout height.
pub open spec fn timeout_revision_height(t: TimeoutHeight) -> u64 {
    match t {
        TimeoutHeight::Never => 0,
        TimeoutHeight::At(h) => h.revision_height,
    }
}

impl TimeoutHeight {
    /// Whether the timeout lies at or below `height`.
    pub fn has_expired(&self, height: &Height) -> (r: bool)
        ensures
            r == timeout_expired(*self, *height),
    {
        match self {
            TimeoutHeight::Never => false,
            TimeoutHeight::At(h) => h.le(height),
        }
    }

    pub fn commitment_revision_number(&self) -> (r: u64)
        ensures
            r == timeout_revision_number(*self),
    {
        match self {
            TimeoutHeight::Never => 0,
            TimeoutHeight::At(h) => h.revision_number,
        }
    }

    pub fn commitment_revision_height(&self) -> (r: u64)
        ensures
            r == timeout_revision_height(*self),
    {
        match self {
            TimeoutHeight::Never => 0,
            TimeoutHeight::At(h) => h.revision_height,
        }
    }
}

/// A timestamp in nanoseconds has passed `timeout` (both set, and later).
/// Zero stands for "no timestamp".
pub open spec fn timestamp_expired(now: u64, timeout: u64) -> bool {
    now != 0 && timeout != 0 && now > timeout
}

/// The state of a connection end.
#[derive(Debug, Clone, Copy, PartialEq, Eq, Structural)]
pub enum ConnectionState {
    Uninitialized,
    Init,
    TryOpen,
    Open,
}

impl ConnectionState {
    /// The number of the state in the protobuf `State` enum of connections.
    pub fn proto_number(&self) -> (r: i32)
        ensures
            r == match *self {
                ConnectionState::Uninitialized => 0i32,
                ConnectionState::Init => 1i32,
                ConnectionState::TryOpen => 2i32,
                ConnectionState::Open => 3i32,
            },
    {
        match self {
            ConnectionState::Uninitialized => 0,
            ConnectionState::Init => 1,
            ConnectionState::TryOpen => 2,
            ConnectionState::Open => 3,
        }
    }
}

/// The state of a channel end.
#[derive(Debug, Clone, Copy, PartialEq, Eq, Structural)]
pub enum State {
    Uninitialized,
    Init,
    TryOpen,
    Open,
    Closed,
}

/// The protobuf number of a channel state.
pub open spec fn state_number(s: State) -> i32 {
    match s {
        State::Uninitialized => 0,
        State::Init => 1,
        State::TryOpen => 2,
        State::Open => 3,
        State::Closed => 4,
    }
}

/// The protobuf number of a channel ordering.
pub open spec fn order_number(o: Order) -> i32 {
    match o {
        Order::NoOrder => 0,
        Order::Unordered => 1,
        Order::Ordered => 2,
    }
}

/// The channel state that a protobuf state number stands for.
pub open spec fn state_of_number(n: i32) -> Option<State> {
    if n == 0 {
        Some(State::Uninitialized)
    } else if n == 1 {
        Some(State::Init)
    } else if n == 2 {
        Some(State::TryOpen)
    } else if n == 3 {
        Some(State::Open)
    } else if n == 4 {
        Some(State::Closed)
    } else {
        None
    }
}

/// The channel ordering that a protobuf ordering number stands for.
pub open spec fn order_of_number(n: i32) -> Option<Order> {
    if n == 0 {
        Some(Order::NoOrder)
    } else if n == 1 {
        Some(Order::Unordered)
    } else if n == 2 {
        Some(Order::Ordered)
    } else {
        None
    }
}

impl State {
    /// The state with protobuf number `n`, as `ibc`'s `State::from_i32` reads it.
    pub fn from_i32(n: i32) -> (r: Option<State>)
        ensures
            r == state_of_number(n),
    {
        if n == 0 {
            Some(State::Uninitialized)
        } else if n == 1 {
            Some(State::Init)
        } else if n == 2 {
            Some(State::TryOpen)
        } else if n == 3 {
            Some(State::Open)
        } else if n == 4 {
            Some(State::Closed)
        } else {
            None
        }
    }

    /// The number of the state in the protobuf `State` enum of channels.
    pub fn proto_number(&self) -> (r: i32)
        ensures
            r == state_number(*self),
    {
        match self {
            State::Uninitialized => 0,
            State::Init => 1,
            State::TryOpen => 2,
            State::Open => 3,
            State::Closed => 4,
        }
    }
}

/// The ordering of a channel.
#[derive(Debug, Clone, Copy, PartialEq, Eq, Structural)]
pub enum Order {
    NoOrder,
    Unordered,
    Ordered,
}

/// The name under which a connection version lists a channel ordering.
pub open spec fn order_name(o: Order) -> Seq<char> {
    match o {
        Order::NoOrder => seq![
            'O', 'R', 'D', 'E', 'R', '_', 'N', 'O', 'N', 'E', '_', 'U', 'N', 'S', 'P', 'E', 'C',
            'I', 'F', 'I', 'E', 'D'
        ],
        Order::Unordered => seq!['O', 'R', 'D', 'E', 'R', '_', 'U', 'N', 'O', 'R', 'D', 'E', 'R', 'E', 'D'],
        Order::Ordered => seq!['O', 'R', 'D', 'E', 'R', '_', 'O', 'R', 'D', 'E', 'R', 'E', 'D'],
    }
}

impl Order {
    /// The ordering with protobuf number `n`, as `ibc`'s `Order::from_i32` reads it.
    pub fn from_i32(n: i32) -> (r: Option<Order>)
        ensures
            r == order_of_number(n),
    {
        if n == 0 {
            Some(Order::NoOrder)
        } else if n == 1 {
            Some(Order::Unordered)
        } else if n == 2 {
            Some(Order::Ordered)
        } else {
            None
        }
    }

    /// The number of the ordering in the protobuf `Order` enum.
    pub fn proto_number(&self) -> (r: i32)
        ensures
            r == order_number(*self),
    {
        match self {
            Order::NoOrder => 0,
            Order::Unordered => 1,
            Order::Ordered => 2,
        }
    }

    pub fn as_str(&self) -> (r: &'static str)
        ensures
            r@ == order_name(*self),
    {
        match self {
            Order::NoOrder => {
                let s = "ORDER_NONE_UNSPECIFIED";
                proof {
                    reveal_strlit("ORDER_NONE_UNSPECIFIED");
                }
                s
            },
            Order::Unordered => {
                let s = "ORDER_UNORDERED";
                proof {
                    reveal_strlit("ORDER_UNORDERED");
                }
                s
            },
            Order::Ordered => {
                let s = "ORDER_ORDERED";
                proof {
                    reveal_strlit("ORDER_ORDERED");
                }
                s
            },
        }
    }
}

/// A connection version: an identifier and the features it supports.
#[derive(Debug)]
pub struct Version {
    pub identifier: String,
    pub features: Vec<String>,
}

pub struct VersionView {
    pub identifier: Seq<char>,
    pub features: Seq<Seq<char>>,
}

impl View for Version {
    type V = VersionView;

    open spec fn view(&self) -> VersionView {
        VersionView {
            identifier: self.identifier@,
            features: self.features@.map_values(|f: String| f@),
        }
    }
}

/// The views of a list of strings.
pub open spec fn strings_view(v: Seq<String>) -> Seq<Seq<char>> {
    v.map_values(|f: String| f@)
}

/// The views of a list of versions.
pub open spec fn versions_view(v: Seq<Version>) -> Seq<VersionView> {
    v.map_values(|x: Version| x@)
}

/// The views of a list of connection identifiers.
pub open spec fn hops_view(v: Seq<ConnectionId>) -> Seq<Seq<char>> {
    v.map_values(|x: ConnectionId| x@)
}

/// A copy of a list of strings.
pub fn copy_strings(v: &Vec<String>) -> (r: Vec<String>)
    ensures
        strings_view(r@) == strings_view(v@),
{
    let mut out: Vec<String> = Vec::new();
    let mut i: usize = 0;
    while i < v.len()
        invariant
            i <= v@.len(),
            out@.len() == i,
            forall|k: int| 0 <= k < i ==> #[trigger] out@[k]@ == v@[k]@,
        decreases v@.len() - i,
    {
        let d = v[i].clone();
        out.push(d);
        i = i + 1;
    }
    assert(strings_view(out@) =~= strings_view(v@));
    out
}

/// Whether `v` holds `s`.
pub fn strings_contain(v: &Vec<String>, s: &String) -> (r: bool)
    ensures
        r == strings_view(v@).contains(s@),
{
    let mut i: usize = 0;
    while i < v.len()
        invariant
            i <= v@.len(),
            forall|j: int| 0 <= j < i ==> v@[j]@ != s@,
        decreases v@.len() - i,
    {
        if v[i] == *s {
            assert(strings_view(v@)[i as int] == s@);
            return true;
        }
        i = i + 1;
    }
    assert(!strings_view(v@).contains(s@)) by {
        if strings_view(v@).contains(s@) {
            let j = choose|j: int| 0 <= j < strings_view(v@).len() && strings_view(v@)[j] == s@;
            assert(v@[j]@ == s@);
        }
    }
    false
}

impl Version {
    pub fn duplicate(&self) -> (r: Version)
        ensures
            r@ == self@,
    {
        Version { identifier: self.identifier.clone(), features: copy_strings(&self.features) }
    }

    /// Whether the version lists `feature`.
    pub fn is_supported_feature(&self, feature: &String) -> (r: bool)
        ensures
            r == self@.features.contains(feature@),
    {
        strings_contain(&self.features, feature)
    }
}

/// Whether two versions have the same identifier and features.
pub fn version_eq(a: &Version, b: &Version) -> (r: bool)
    ensures
        r == (a@ == b@),
{
    if a.identifier != b.identifier || a.features.len() != b.features.len() {
        proof {
            if a@ == b@ {
                assert(a@.features.len() == b@.features.len());
            }
        }
        return false;
    }
    let mut i: usize = 0;
    while i < a.features.len()
        invariant
            a.features@.len() == b.features@.len(),
            i <= a.features@.len(),
            forall|j: int| 0 <= j < i ==> a.features@[j]@ == b.features@[j]@,
        decreases a.features@.len() - i,
    {
        if a.features[i] != b.features[i] {
            proof {
                if a@ == b@ {
                    assert(a@.features[i as int] == b@.features[i as int]);
                }
            }
            return false;
        }
        i = i + 1;
    }
    assert(a@.features =~= b@.features);
    true
}

/// A copy of a list of versions.
pub fn copy_versions(v: &Vec<Version>) -> (r: Vec<Version>)
    ensures
        versions_view(r@) == versions_view(v@),
{
    let mut out: Vec<Version> = Vec::new();
    let mut i: usize = 0;
    while i < v.len()
        invariant
            i <= v@.len(),
            out@.len() == i,
            forall|k: int| 0 <= k < i ==> #[trigger] out@[k]@ == v@[k]@,
        decreases v@.len() - i,
    {
        let d = v[i].duplicate();
        out.push(d);
        i = i + 1;
    }
    assert(versions_view(out@) =~= versions_view(v@));
    out
}

/// Whether `versions` holds a version equal to `v`.
pub fn versions_contain(versions: &Vec<Version>, v: &Version) -> (r: bool)
    ensures
        r == versions_view(versions@).contains(v@),
{
    let mut i: usize = 0;
    while i < versions.len()
        invariant
            i <= versions@.len(),
            forall|j: int| 0 <= j < i ==> versions@[j]@ != v@,
        decreases versions@.len() - i,
    {
        if version_eq(&versions[i], v) {
            assert(versions_view(versions@)[i as int] == v@);
            return true;
        }
        i = i + 1;
    }
    assert(!versions_view(versions@).contains(v@)) by {
        if versions_view(versions@).contains(v@) {
            let j = choose|j: int|
                0 <= j < versions_view(versions@).len() && versions_view(versions@)[j] == v@;
            assert(versions@[j]@ == v@);
        }
    }
    false
}

/// A copy of a list of connection identifiers.
pub fn copy_hops(v: &Vec<ConnectionId>) -> (r: Vec<ConnectionId>)
    ensures
        hops_view(r@) == hops_view(v@),
{
    let mut out: Vec<ConnectionId> = Vec::new();
    let mut i: usize = 0;
    while i < v.len()
        invariant
            i <= v@.len(),
            out@.len() == i,
            forall|k: int| 0 <= k < i ==> #[trigger] out@[k]@ == v@[k]@,
        decreases v@.len() - i,
    {
        let d = v[i].duplicate();
        out.push(d);
        i = i + 1;
    }
    assert(hops_view(out@) =~= hops_view(v@));
    out
}

/// The view of an optional identifier.
pub open spec fn opt_id<T: View>(o: Option<T>) -> Option<T::V> {
    match o {
        Some(x) => Some(x@),
        None => None,
    }
}

/// A copy of an optional identifier.
pub fn copy_opt<T: KeyLike>(o: &Option<T>) -> (r: Option<T>)
    ensures
        opt_id(r) == opt_id(*o),
{
    match o {
        Some(x) => Some(x.duplicate()),
        None => None,
    }
}

/// The other end of a connection: its client, its connection identifier once
/// known, and its commitment prefix.
#[derive(Debug)]
pub struct ConnectionCounterparty {
    pub client_id: ClientId,
    pub connection_id: Option<ConnectionId>,
    pub prefix: Vec<u8>,
}

pub struct ConnectionCounterpartyView {
    pub client_id: Seq<char>,
    pub connection_id: Option<Seq<char>>,
    pub prefix: Seq<u8>,
}

impl View for ConnectionCounterparty {
    type V = ConnectionCounterpartyView;

    open spec fn view(&self) -> ConnectionCounterpartyView {
        ConnectionCounterpartyView {
            client_id: self.client_id@,
            connection_id: opt_id(self.connection_id),
            prefix: self.prefix@,
        }
    }
}

impl ConnectionCounterparty {
    pub fn new(client_id: ClientId, connection_id: Option<ConnectionId>, prefix: Vec<u8>) -> (r:
        ConnectionCounterparty)
        ensures
            r.client_id == client_id,
            r.connection_id == connection_id,
            r.prefix == prefix,
    {
        ConnectionCounterparty { client_id, connection_id, prefix }
    }

    /// The counterparty's connection identifier, empty while it is unknown.
    pub fn connection_id_text(&self) -> (r: String)
        ensures
            r@ == match self.connection_id {
                Some(c) => c@,
                None => Seq::<char>::empty(),
            },
    {
        match &self.connection_id {
            Some(c) => c.as_str().to_owned(),
            None => String::new(),
        }
    }

    pub fn duplicate(&self) -> (r: ConnectionCounterparty)
        ensures
            r@ == self@,
    {
        ConnectionCounterparty {
            client_id: self.client_id.duplicate(),
            connection_id: copy_opt(&self.connection_id),
            prefix: crate::encoding::copy_bytes(self.prefix.as_slice()),
        }
    }
}

/// One end of a connection as this chain keeps it.
#[derive(Debug)]
pub struct ConnectionEnd {
    pub state: ConnectionState,
    pub client_id: ClientId,
    pub counterparty: ConnectionCounterparty,
    pub versions: Vec<Version>,
    /// In nanoseconds.
    pub delay_period: u64,
}

pub struct ConnectionEndView {
    pub state: ConnectionState,
    pub client_id: Seq<char>,
    pub counterparty: ConnectionCounterpartyView,
    pub versions: Seq<VersionView>,
    pub delay_period: u64,
}

impl View for ConnectionEnd {
    type V = ConnectionEndView;

    open spec fn view(&self) -> ConnectionEndView {
        ConnectionEndView {
            state: self.state,
            client_id: self.client_id@,
            counterparty: self.counterparty@,
            versions: versions_view(self.versions@),
            delay_period: self.delay_period,
        }
    }
}

impl ConnectionEnd {
    pub fn duplicate(&self) -> (r: ConnectionEnd)
        ensures
            r@ == self@,
    {
        ConnectionEnd {
            state: self.state,
            client_id: self.client_id.duplicate(),
            counterparty: self.counterparty.duplicate(),
            versions: copy_versions(&self.versions),
            delay_period: self.delay_period,
        }
    }
}

/// The other end of a channel: its port and, once known, its channel.
#[derive(Debug)]
pub struct Counterparty {
    pub port_id: PortId,
    pub channel_id: Option<ChannelId>,
}

pub struct CounterpartyView {
    pub port_id: Seq<char>,
    pub channel_id: Option<Seq<char>>,
}

impl View for Counterparty {
    type V = CounterpartyView;

    open spec fn view(&self) -> CounterpartyView {
        CounterpartyView { port_id: self.port_id@, channel_id: opt_id(self.channel_id) }
    }
}

impl Counterparty {
    pub fn new(port_id: PortId, channel_id: Option<ChannelId>) -> (r: Counterparty)
        ensures
            r.port_id == port_id,
            r.channel_id == channel_id,
    {
        Counterparty { port_id, channel_id }
    }

    /// The counterparty's channel identifier, empty while it is unknown.
    pub fn channel_id_text(&self) -> (r: String)
        ensures
            r@ == match self.channel_id {
                Some(c) => c@,
                None => Seq::<char>::empty(),
            },
    {
        match &self.channel_id {
            Some(c) => c.as_str().to_owned(),
            None => String::new(),
        }
    }

    pub fn duplicate(&self) -> (r: Counterparty)
        ensures
            r@ == self@,
    {
        Counterparty { port_id: self.port_id.duplicate(), channel_id: copy_opt(&self.channel_id) }
    }
}

/// One end of a channel as this chain keeps it.
#[derive(Debug)]
pub struct ChannelEnd {
    pub state: State,
    pub ordering: Order,
    pub remote: Counterparty,
    pub connection_hops: Vec<ConnectionId>,
    pub version: String,
}

pub struct ChannelEndView {
    pub state: State,
    pub ordering: Order,
    pub remote: CounterpartyView,
    pub connection_hops: Seq<Seq<char>>,
    pub version: Seq<char>,
}

impl View for ChannelEnd {
    type V = ChannelEndView;

    open spec fn view(&self) -> ChannelEndView {
        ChannelEndView {
            state: self.state,
            ordering: self.ordering,
            remote: self.remote@,
            connection_hops: hops_view(self.connection_hops@),
            version: self.version@,
        }
    }
}

impl ChannelEnd {
    pub fn duplicate(&self) -> (r: ChannelEnd)
        ensures
            r@ == self@,
    {
        ChannelEnd {
            state: self.state,
            ordering: self.ordering,
            remote: self.remote.duplicate(),
            connection_hops: copy_hops(&self.connection_hops),
            version: self.version.clone(),
        }
    }

    /// Whether the counterparty is `port_id` / `channel_id`.
    pub fn counterparty_matches(&self, port_id: &PortId, channel_id: &ChannelId) -> (r: bool)
        ensures
            r == (self@.remote.port_id == port_id@ && self@.remote.channel_id == Some(
                channel_id@,
            )),
    {
        if !self.remote.port_id.same_key(port_id) {
            return false;
        }
        match &self.remote.channel_id {
            Some(c) => c.same_key(channel_id),
            None => false,
        }
    }
}

/// A packet sent from the source end of a channel to the destination end.
#[derive(Debug)]
pub struct Packet {
    pub sequence: u64,
    pub source_port: PortId,
    pub source_channel: ChannelId,
    pub destination_port: PortId,
    pub destination_channel: ChannelId,
    pub data: Vec<u8>,
    pub timeout_height: TimeoutHeight,
    /// In nanoseconds; zero for none.
    pub timeout_timestamp: u64,
}

} // verus!
