//! Checked conversions from the raw values of messages to the host's types.
use vstd::prelude::*;

use crate::error::{validation_error, ChannelError, ClientError, ConnectionError, ContractError};
use crate::ibc_types::{hops_view, order_of_number, state_of_number, versions_view, ChannelEnd, ChannelEndView, ConnectionCounterparty, ConnectionCounterpartyView, Counterparty, CounterpartyView, Height, Order, Packet, State, TimeoutHeight, Version, VersionView};
use crate::error::PacketError;
use crate::ics04_channel::handler::submessages::ModuleEndpoint;
use crate::ics04_channel::packet::receive_packet::TimeoutBlock;
use crate::types::{ibc_channel_id_valid, ibc_client_id_valid, ibc_connection_id_valid, ibc_port_id_valid, ChannelId, ClientId, ConnectionId, PortId};
use crate::store::KeyLike;

verus! {

/// A height as messages carry it.
#[derive(Debug, Clone, Copy, PartialEq, Eq, Structural)]
pub struct RawHeight {
    pub revision_number: u64,
    pub revision_height: u64,
}

/// A port identifier, where `ibc` accepts it.
pub fn to_ibc_port_id(port_id: &str) -> (r: Result<PortId, ContractError>)
    ensures
        ibc_port_id_valid(port_id@) ==> (r matches Ok(p) && p@ == port_id@),
        !ibc_port_id_valid(port_id@) ==> (r matches Err(e) && validation_error(e, "invalid port identifier"@)),
{
    match PortId::from_string(String::from_str(port_id)) {
        Some(p) => Ok(p),
        None => Err(ContractError::IbcValidationError { error: String::from_str("invalid port identifier") }),
    }
}

/// A channel identifier, where `ibc` accepts it.
pub fn to_ibc_channel_id(channel_id: &str) -> (r: Result<ChannelId, ContractError>)
    ensures
        ibc_channel_id_valid(channel_id@) ==> (r matches Ok(c) && c@ == channel_id@),
        !ibc_channel_id_valid(channel_id@) ==> (r matches Err(e) && validation_error(e, "invalid channel identifier"@)),
{
    match ChannelId::from_string(String::from_str(channel_id)) {
        Some(c) => Ok(c),
        None => Err(ContractError::IbcValidationError { error: String::from_str("invalid channel identifier") }),
    }
}

/// A client identifier, where `ibc` accepts it.
pub fn to_ibc_client_id(client_id: &str) -> (r: Result<ClientId, ContractError>)
    ensures
        ibc_client_id_valid(client_id@) ==> (r matches Ok(c) && c@ == client_id@),
        !ibc_client_id_valid(client_id@) ==> (r matches Err(e) && validation_error(e, "invalid client identifier"@)),
{
    match ClientId::from_string(String::from_str(client_id)) {
        Some(c) => Ok(c),
        None => Err(ContractError::IbcValidationError { error: String::from_str("invalid client identifier") }),
    }
}

/// A connection identifier, where `ibc` accepts it.
pub fn to_ibc_connection_id(connection_id: &str) -> (r: Result<ConnectionId, ContractError>)
    ensures
        ibc_connection_id_valid(connection_id@) ==> (r matches Ok(c) && c@ == connection_id@),
        !ibc_connection_id_valid(connection_id@) ==> (r matches Err(e) && validation_error(e, "invalid connection identifier"@)),
{
    match ConnectionId::from_string(String::from_str(connection_id)) {
        Some(c) => Ok(c),
        None => Err(ContractError::IbcValidationError { error: String::from_str("invalid connection identifier") }),
    }
}

/// A height: it must be given, and its height within the revision must not be
/// zero.
pub fn to_ibc_height(height: Option<RawHeight>) -> (r: Result<Height, ContractError>)
    ensures
        match height {
            None => r == Err::<Height, ContractError>(ContractError::InvalidHeight),
            Some(h) => if h.revision_height == 0 {
                r == Err::<Height, ContractError>(ContractError::IbcClientError { error: ClientError::InvalidHeight })
            } else {
                r == Ok::<Height, ContractError>(Height { revision_number: h.revision_number, revision_height: h.revision_height })
            },
        },
{
    match height {
        None => Err(ContractError::InvalidHeight),
        Some(h) => {
            if h.revision_height == 0 {
                return Err(ContractError::IbcClientError { error: ClientError::InvalidHeight });
            }
            Ok(Height::new(h.revision_number, h.revision_height))
        },
    }
}

/// A timeout height: none, or zero in both parts, means no timeout;
/// otherwise the height within the revision must not be zero.
pub fn to_ibc_timeout_height(height: Option<RawHeight>) -> (r: Result<TimeoutHeight, ContractError>)
    ensures
        match height {
            None => r == Ok::<TimeoutHeight, ContractError>(TimeoutHeight::Never),
            Some(h) => if h.revision_number == 0 && h.revision_height == 0 {
                r == Ok::<TimeoutHeight, ContractError>(TimeoutHeight::Never)
            } else if h.revision_height == 0 {
                r == Err::<TimeoutHeight, ContractError>(ContractError::IbcClientError { error: ClientError::InvalidHeight })
            } else {
                r == Ok::<TimeoutHeight, ContractError>(TimeoutHeight::At(Height { revision_number: h.revision_number, revision_height: h.revision_height }))
            },
        },
{
    match height {
        None => Ok(TimeoutHeight::Never),
        Some(h) => {
            if h.revision_number == 0 && h.revision_height == 0 {
                return Ok(TimeoutHeight::Never);
            }
            if h.revision_height == 0 {
                return Err(ContractError::IbcClientError { error: ClientError::InvalidHeight });
            }
            Ok(TimeoutHeight::At(Height::new(h.revision_number, h.revision_height)))
        },
    }
}

/// The block at which a packet times out, as modules see it; a packet without
/// a timeout height gets block one of revision one.
pub fn to_ibc_timeout_block(packet_timeout_height: &TimeoutHeight) -> (r: TimeoutBlock)
    ensures
        match *packet_timeout_height {
            TimeoutHeight::Never => r == (TimeoutBlock { revision: 1, height: 1 }),
            TimeoutHeight::At(h) => r == (TimeoutBlock { revision: h.revision_number, height: h.revision_height }),
        },
{
    match packet_timeout_height {
        TimeoutHeight::Never => TimeoutBlock { revision: 1, height: 1 },
        TimeoutHeight::At(h) => TimeoutBlock { revision: h.revision_number, height: h.revision_height },
    }
}

/// What `ibc` makes of a connection version as a message carries it.
#[derive(Debug, Clone, Copy, PartialEq, Eq, Structural)]
pub enum VersionCheck {
    Accepted,
    EmptyVersions,
    EmptyFeatures,
}

/// A white-space character: one with the Unicode `White_Space` property,
/// which is what `char::is_whitespace`, and so `str::trim`, goes by.
pub open spec fn is_white_space(c: char) -> bool {
    ||| '\u{9}' <= c <= '\u{d}'
    ||| c == ' ' || c == '\u{85}' || c == '\u{a0}' || c == '\u{1680}'
    ||| '\u{2000}' <= c <= '\u{200a}'
    ||| c == '\u{2028}' || c == '\u{2029}' || c == '\u{202f}' || c == '\u{205f}' || c == '\u{3000}'
}

/// Whether nothing is left of `s` once white space is trimmed from both ends.
pub open spec fn trims_to_nothing(s: Seq<char>) -> bool {
    forall|i: int| 0 <= i < s.len() ==> is_white_space(#[trigger] s[i])
}

/// `ibc`'s verdict on a version with this identifier and these features: an
/// identifier that trims to nothing is refused, then any feature that does.
pub open spec fn ibc_version_check(identifier: Seq<char>, features: Seq<Seq<char>>) -> VersionCheck {
    if trims_to_nothing(identifier) {
        VersionCheck::EmptyVersions
    } else if exists|i: int| 0 <= i < features.len() && trims_to_nothing(#[trigger] features[i]) {
        VersionCheck::EmptyFeatures
    } else {
        VersionCheck::Accepted
    }
}

/// `ibc`'s `Version::try_from` on a version as a message carries it. Its
/// source refuses an identifier that is empty once white space is trimmed
/// (`EmptyVersions`), then any feature that is (`EmptyFeatures`), and otherwise
/// keeps both as they are.
#[verifier::external_body]
fn ibc_check_version(v: &Version) -> (r: VersionCheck)
    ensures
        r == ibc_version_check(v@.identifier, v@.features),
{
    let raw = ibc::core::connection::types::proto::v1::Version { identifier: v.identifier.clone(), features: v.features.clone() };
    match ibc::core::connection::types::version::Version::try_from(raw) {
        Ok(_) => VersionCheck::Accepted,
        Err(ibc::core::connection::types::error::ConnectionError::EmptyVersions) => VersionCheck::EmptyVersions,
        Err(_) => VersionCheck::EmptyFeatures,
    }
}

/// The connection error that a refused version gives.
pub open spec fn version_error(c: VersionCheck) -> ContractError {
    match c {
        VersionCheck::EmptyFeatures => ContractError::IbcConnectionError { error: ConnectionError::EmptyFeatures },
        _ => ContractError::IbcConnectionError { error: ConnectionError::EmptyVersions },
    }
}

/// Whether `ibc` accepts the version `v`.
pub open spec fn version_accepted(v: VersionView) -> bool {
    ibc_version_check(v.identifier, v.features) == VersionCheck::Accepted
}

/// A connection version: it must be given, and `ibc` must accept it; it is kept
/// as it is.
pub fn to_ibc_version(version: Option<Version>) -> (r: Result<Version, ContractError>)
    ensures
        match version {
            None => r == Err::<Version, ContractError>(ContractError::IbcConnectionError { error: ConnectionError::EmptyVersions }),
            Some(v) => if version_accepted(v@) {
                r matches Ok(x) && x@ == v@
            } else {
                r == Err::<Version, ContractError>(version_error(ibc_version_check(v@.identifier, v@.features)))
            },
        },
{
    match version {
        None => Err(ContractError::IbcConnectionError { error: ConnectionError::EmptyVersions }),
        Some(v) => match ibc_check_version(&v) {
            VersionCheck::Accepted => Ok(v),
            VersionCheck::EmptyVersions => Err(ContractError::IbcConnectionError { error: ConnectionError::EmptyVersions }),
            VersionCheck::EmptyFeatures => Err(ContractError::IbcConnectionError { error: ConnectionError::EmptyFeatures }),
        },
    }
}

/// Whether `i` is the first version of `vs` that `ibc` refuses.
pub open spec fn first_refused_version(vs: Seq<VersionView>, i: int) -> bool {
    &&& 0 <= i < vs.len()
    &&& !version_accepted(vs[i])
    &&& forall|j: int| 0 <= j < i ==> version_accepted(#[trigger] vs[j])
}

/// A list of connection versions: `ibc` must accept each; the first that it
/// refuses gives the error. They are kept as they are.
pub fn to_ibc_versions(versions: Vec<Version>) -> (r: Result<Vec<Version>, ContractError>)
    ensures
        (forall|i: int| 0 <= i < versions@.len() ==> version_accepted(#[trigger] versions_view(versions@)[i]))
            ==> (r matches Ok(x) && versions_view(x@) == versions_view(versions@)),
        r is Err ==> exists|i: int| first_refused_version(versions_view(versions@), i)
            && r == Err::<Vec<Version>, ContractError>(version_error(ibc_version_check(versions_view(versions@)[i].identifier, versions_view(versions@)[i].features))),
        r is Ok ==> forall|i: int| 0 <= i < versions@.len() ==> version_accepted(#[trigger] versions_view(versions@)[i]),
{
    let mut i: usize = 0;
    while i < versions.len()
        invariant
            i <= versions@.len(),
            forall|j: int| 0 <= j < i ==> version_accepted(#[trigger] versions_view(versions@)[j]),
        decreases versions@.len() - i,
    {
        let check = ibc_check_version(&versions[i]);
        match check {
            VersionCheck::Accepted => {},
            VersionCheck::EmptyVersions => {
                proof {
                    assert(first_refused_version(versions_view(versions@), i as int));
                }
                return Err(ContractError::IbcConnectionError { error: ConnectionError::EmptyVersions });
            },
            VersionCheck::EmptyFeatures => {
                proof {
                    assert(first_refused_version(versions_view(versions@), i as int));
                }
                return Err(ContractError::IbcConnectionError { error: ConnectionError::EmptyFeatures });
            },
        }
        i = i + 1;
    }
    Ok(versions)
}

/// The counterparty of a connection as a message carries it: an empty
/// connection identifier stands for none.
#[derive(Debug)]
pub struct RawConnectionCounterparty {
    pub client_id: String,
    pub connection_id: String,
    pub prefix: Option<Vec<u8>>,
}

pub struct RawConnectionCounterpartyView {
    pub client_id: Seq<char>,
    pub connection_id: Seq<char>,
    pub prefix: Option<Seq<u8>>,
}

impl View for RawConnectionCounterparty {
    type V = RawConnectionCounterpartyView;

    open spec fn view(&self) -> RawConnectionCounterpartyView {
        RawConnectionCounterpartyView {
            client_id: self.client_id@,
            connection_id: self.connection_id@,
            prefix: match self.prefix {
                Some(p) => Some(p@),
                None => None,
            },
        }
    }
}

/// The counterparty that `ibc`'s `Counterparty::try_from` makes of a raw one,
/// where it accepts it: the connection identifier (none where empty) and the
/// client identifier must be valid, and the prefix given and not empty.
pub open spec fn counterparty_of(c: Option<RawConnectionCounterpartyView>) -> Option<ConnectionCounterpartyView> {
    match c {
        None => None,
        Some(c) => if c.connection_id.len() > 0 && !ibc_connection_id_valid(c.connection_id) {
            None
        } else if !ibc_client_id_valid(c.client_id) {
            None
        } else {
            match c.prefix {
                None => None,
                Some(p) => if p.len() == 0 {
                    None
                } else {
                    Some(ConnectionCounterpartyView {
                        client_id: c.client_id,
                        connection_id: if c.connection_id.len() == 0 { None } else { Some(c.connection_id) },
                        prefix: p,
                    })
                },
            }
        },
    }
}

/// Whether `e` is the error that a refused raw counterparty `c` gives.
pub open spec fn counterparty_error(c: Option<RawConnectionCounterpartyView>, e: ContractError) -> bool {
    match c {
        None => e == ContractError::IbcConnectionError { error: ConnectionError::MissingCounterparty },
        Some(c) => if c.connection_id.len() > 0 && !ibc_connection_id_valid(c.connection_id) {
            e matches ContractError::IbcConnectionError { error: ConnectionError::InvalidIdentifier { id } } && id@ == c.connection_id
        } else if !ibc_client_id_valid(c.client_id) {
            e matches ContractError::IbcConnectionError { error: ConnectionError::InvalidIdentifier { id } } && id@ == c.client_id
        } else {
            match c.prefix {
                None => e == ContractError::IbcConnectionError { error: ConnectionError::MissingCounterparty },
                Some(p) => e == ContractError::IbcConnectionError { error: ConnectionError::EmptyPrefix },
            }
        },
    }
}

/// A copy of an optional raw counterparty.
pub fn copy_raw_counterparty(c: &Option<RawConnectionCounterparty>) -> (r: Option<RawConnectionCounterparty>)
    ensures
        raw_counterparty_view(r) == raw_counterparty_view(*c),
{
    match c {
        None => None,
        Some(c) => Some(RawConnectionCounterparty {
            client_id: c.client_id.clone(),
            connection_id: c.connection_id.clone(),
            prefix: match &c.prefix {
                Some(p) => Some(crate::encoding::copy_bytes(p.as_slice())),
                None => None,
            },
        }),
    }
}

/// The views of an optional raw counterparty.
pub open spec fn raw_counterparty_view(c: Option<RawConnectionCounterparty>) -> Option<RawConnectionCounterpartyView> {
    match c {
        Some(x) => Some(x@),
        None => None,
    }
}

/// The counterparty of a connection: it must be given, its identifiers must be
/// valid (an empty connection identifier stands for none), and its prefix given
/// and not empty.
pub fn to_ibc_counterparty(counterparty: Option<RawConnectionCounterparty>) -> (r: Result<ConnectionCounterparty, ContractError>)
    ensures
        match counterparty_of(raw_counterparty_view(counterparty)) {
            Some(v) => r matches Ok(x) && x@ == v,
            None => r matches Err(e) && counterparty_error(raw_counterparty_view(counterparty), e),
        },
{
    let cp = match counterparty {
        Some(c) => c,
        None => {
            return Err(ContractError::IbcConnectionError { error: ConnectionError::MissingCounterparty });
        },
    };
    let RawConnectionCounterparty { client_id, connection_id, prefix } = cp;
    let connection = if connection_id.as_str().is_empty() {
        None
    } else {
        let copy = connection_id.clone();
        match ConnectionId::from_string(connection_id) {
            Some(c) => Some(c),
            None => {
                return Err(ContractError::IbcConnectionError { error: ConnectionError::InvalidIdentifier { id: copy } });
            },
        }
    };
    let copy = client_id.clone();
    let client = match ClientId::from_string(client_id) {
        Some(c) => c,
        None => {
            return Err(ContractError::IbcConnectionError { error: ConnectionError::InvalidIdentifier { id: copy } });
        },
    };
    let prefix = match prefix {
        Some(p) => p,
        None => {
            return Err(ContractError::IbcConnectionError { error: ConnectionError::MissingCounterparty });
        },
    };
    if prefix.len() == 0 {
        return Err(ContractError::IbcConnectionError { error: ConnectionError::EmptyPrefix });
    }
    Ok(ConnectionCounterparty::new(client, connection, prefix))
}

/// The counterparty of a channel as a message carries it: an empty channel
/// identifier stands for none.
#[derive(Debug)]
pub struct RawChannelCounterparty {
    pub port_id: String,
    pub channel_id: String,
}

/// A channel end as a message carries it, with its state and ordering by their
/// protobuf numbers.
#[derive(Debug)]
pub struct RawChannel {
    pub state: i32,
    pub ordering: i32,
    pub counterparty: Option<RawChannelCounterparty>,
    pub connection_hops: Vec<String>,
    pub version: String,
}

pub struct RawChannelCounterpartyView {
    pub port_id: Seq<char>,
    pub channel_id: Seq<char>,
}

pub struct RawChannelView {
    pub state: i32,
    pub ordering: i32,
    pub counterparty: Option<RawChannelCounterpartyView>,
    pub connection_hops: Seq<Seq<char>>,
    pub version: Seq<char>,
}

impl View for RawChannel {
    type V = RawChannelView;

    open spec fn view(&self) -> RawChannelView {
        RawChannelView {
            state: self.state,
            ordering: self.ordering,
            counterparty: match self.counterparty {
                Some(c) => Some(RawChannelCounterpartyView { port_id: c.port_id@, channel_id: c.channel_id@ }),
                None => None,
            },
            connection_hops: self.connection_hops@.map_values(|h: String| h@),
            version: self.version@,
        }
    }
}

/// The views of an optional raw channel end.
pub open spec fn raw_channel_view(c: Option<RawChannel>) -> Option<RawChannelView> {
    match c {
        Some(x) => Some(x@),
        None => None,
    }
}

/// Whether `i` is the first of `hops` that is not a valid connection identifier.
pub open spec fn first_invalid_hop(hops: Seq<Seq<char>>, i: int) -> bool {
    &&& 0 <= i < hops.len()
    &&& !ibc_connection_id_valid(hops[i])
    &&& forall|j: int| 0 <= j < i ==> ibc_connection_id_valid(#[trigger] hops[j])
}

/// The channel end that `ibc`'s `ChannelEnd::try_from` makes of a raw one,
/// where it accepts it: known state and ordering numbers, a counterparty with a
/// valid channel identifier (none where empty) and port, valid connection hops,
/// and neither the uninitialized state nor the unspecified ordering.
pub open spec fn channel_of(c: Option<RawChannelView>) -> Option<ChannelEndView> {
    match c {
        None => None,
        Some(c) => match (state_of_number(c.state), order_of_number(c.ordering), c.counterparty) {
            (Some(state), Some(ordering), Some(cp)) => if cp.channel_id.len() > 0 && !ibc_channel_id_valid(cp.channel_id) {
                None
            } else if !ibc_port_id_valid(cp.port_id) {
                None
            } else if exists|i: int| 0 <= i < c.connection_hops.len() && !ibc_connection_id_valid(#[trigger] c.connection_hops[i]) {
                None
            } else if state == State::Uninitialized || ordering == Order::NoOrder {
                None
            } else {
                Some(ChannelEndView {
                    state,
                    ordering,
                    remote: CounterpartyView {
                        port_id: cp.port_id,
                        channel_id: if cp.channel_id.len() == 0 { None } else { Some(cp.channel_id) },
                    },
                    connection_hops: c.connection_hops,
                    version: c.version,
                })
            },
            _ => None,
        },
    }
}

/// Whether `e` is the error that a refused raw channel end `c` gives, in the
/// order in which `ibc` checks.
pub open spec fn channel_error(c: Option<RawChannelView>, e: ContractError) -> bool {
    match c {
        None => e == ContractError::IbcChannelError { error: ChannelError::MissingChannel },
        Some(c) => if state_of_number(c.state) is None {
            e == ContractError::IbcChannelError { error: ChannelError::InvalidState { state: c.state } }
        } else if order_of_number(c.ordering) is None {
            e == ContractError::IbcChannelError { error: ChannelError::InvalidOrderType { order: c.ordering } }
        } else {
            match c.counterparty {
                None => e == ContractError::IbcChannelError { error: ChannelError::MissingCounterparty },
                Some(cp) => if cp.channel_id.len() > 0 && !ibc_channel_id_valid(cp.channel_id) {
                    e matches ContractError::IbcChannelError { error: ChannelError::InvalidIdentifier { id } } && id@ == cp.channel_id
                } else if !ibc_port_id_valid(cp.port_id) {
                    e matches ContractError::IbcChannelError { error: ChannelError::InvalidIdentifier { id } } && id@ == cp.port_id
                } else if exists|i: int| 0 <= i < c.connection_hops.len() && !ibc_connection_id_valid(#[trigger] c.connection_hops[i]) {
                    e matches ContractError::IbcChannelError { error: ChannelError::InvalidIdentifier { id } }
                        && exists|i: int| first_invalid_hop(c.connection_hops, i) && id@ == c.connection_hops[i]
                } else if c.state == 0 {
                    e == ContractError::IbcChannelError { error: ChannelError::InvalidState { state: 0 } }
                } else {
                    e == ContractError::IbcChannelError { error: ChannelError::InvalidOrderType { order: 0 } }
                },
            }
        },
    }
}

/// A channel end: it must be given, and `ibc` must accept it (see
/// [`channel_of`]); the first check that fails gives the error.
pub fn to_ibc_channel(channel: Option<RawChannel>) -> (r: Result<ChannelEnd, ContractError>)
    ensures
        match channel_of(raw_channel_view(channel)) {
            Some(v) => r matches Ok(x) && x@ == v,
            None => r matches Err(e) && channel_error(raw_channel_view(channel), e),
        },
{
    let raw = match channel {
        Some(c) => c,
        None => {
            return Err(ContractError::IbcChannelError { error: ChannelError::MissingChannel });
        },
    };
    let ghost rv = raw@;
    let RawChannel { state, ordering, counterparty, connection_hops, version } = raw;
    let state_value = match State::from_i32(state) {
        Some(s) => s,
        None => {
            return Err(ContractError::IbcChannelError { error: ChannelError::InvalidState { state } });
        },
    };
    let order_value = match Order::from_i32(ordering) {
        Some(o) => o,
        None => {
            return Err(ContractError::IbcChannelError { error: ChannelError::InvalidOrderType { order: ordering } });
        },
    };
    let cp = match counterparty {
        Some(c) => c,
        None => {
            return Err(ContractError::IbcChannelError { error: ChannelError::MissingCounterparty });
        },
    };
    let RawChannelCounterparty { port_id, channel_id } = cp;
    let remote_channel = if channel_id.as_str().is_empty() {
        None
    } else {
        let copy = channel_id.clone();
        match ChannelId::from_string(channel_id) {
            Some(c) => Some(c),
            None => {
                return Err(ContractError::IbcChannelError { error: ChannelError::InvalidIdentifier { id: copy } });
            },
        }
    };
    let copy = port_id.clone();
    let port = match PortId::from_string(port_id) {
        Some(p) => p,
        None => {
            return Err(ContractError::IbcChannelError { error: ChannelError::InvalidIdentifier { id: copy } });
        },
    };
    let mut hops: Vec<ConnectionId> = Vec::new();
    let mut i: usize = 0;
    while i < connection_hops.len()
        invariant
            i <= connection_hops@.len(),
            rv.connection_hops == connection_hops@.map_values(|h: String| h@),
            raw_channel_view(channel) == Some(rv),
            state_of_number(rv.state) is Some,
            order_of_number(rv.ordering) is Some,
            rv.counterparty matches Some(cp) && !(cp.channel_id.len() > 0 && !ibc_channel_id_valid(cp.channel_id))
                && ibc_port_id_valid(cp.port_id),
            hops@.len() == i,
            forall|j: int| 0 <= j < i ==> #[trigger] hops@[j]@ == connection_hops@[j]@,
            forall|j: int| 0 <= j < i ==> ibc_connection_id_valid(#[trigger] rv.connection_hops[j]),
        decreases connection_hops@.len() - i,
    {
        let text = connection_hops[i].clone();
        let copy = text.clone();
        match ConnectionId::from_string(text) {
            Some(c) => {
                hops.push(c);
            },
            None => {
                proof {
                    assert(rv.connection_hops[i as int] == connection_hops@[i as int]@);
                    assert(first_invalid_hop(rv.connection_hops, i as int));
                }
                return Err(ContractError::IbcChannelError { error: ChannelError::InvalidIdentifier { id: copy } });
            },
        }
        i = i + 1;
    }
    proof {
        assert(hops_view(hops@) =~= rv.connection_hops);
    }
    if state == 0 {
        return Err(ContractError::IbcChannelError { error: ChannelError::InvalidState { state: 0 } });
    }
    if ordering == 0 {
        return Err(ContractError::IbcChannelError { error: ChannelError::InvalidOrderType { order: 0 } });
    }
    Ok(ChannelEnd {
        state: state_value,
        ordering: order_value,
        remote: Counterparty::new(port, remote_channel),
        connection_hops: hops,
        version,
    })
}

/// `ibc`'s `Timestamp::from_nanoseconds`, read back with `nanoseconds`: zero
/// stands for no timestamp and reads back as zero; any other value becomes that
/// time. The source notes that every `u64` value lies within range (up to about
/// the year 2554, inside the years 1 to 9999 that its time type takes), so the
/// call gives the value back.
#[verifier::external_body]
fn ibc_timestamp_nanos(nanoseconds: u64) -> (r: Option<u64>)
    ensures
        r == Some(nanoseconds),
{
    match ibc::primitives::Timestamp::from_nanoseconds(nanoseconds) {
        Ok(t) => Some(t.nanoseconds()),
        Err(_) => None,
    }
}

/// A timeout timestamp in nanoseconds, as `ibc` reads it; zero stands for none.
pub fn to_ibc_timestamp(nanoseconds: u64) -> (r: Result<u64, ContractError>)
    ensures
        r == Ok::<u64, ContractError>(nanoseconds),
{
    match ibc_timestamp_nanos(nanoseconds) {
        Some(t) => Ok(t),
        None => Err(ContractError::IbcPacketError { error: PacketError::InvalidPacketTimestamp }),
    }
}

/// When a packet times out, as modules see it: a block, and a timestamp in
/// nanoseconds where one is told.
#[derive(Debug, Clone, Copy, PartialEq, Eq, Structural)]
pub struct ModuleTimeout {
    pub block: TimeoutBlock,
    pub timestamp: Option<u64>,
}

/// A packet as modules see it.
#[derive(Debug)]
pub struct ModulePacket {
    pub data: Vec<u8>,
    pub src: ModuleEndpoint,
    pub dest: ModuleEndpoint,
    pub sequence: u64,
    pub timeout: ModuleTimeout,
}

pub struct ModulePacketView {
    pub data: Seq<u8>,
    pub src_port: Seq<char>,
    pub src_channel: Seq<char>,
    pub dest_port: Seq<char>,
    pub dest_channel: Seq<char>,
    pub sequence: u64,
    pub timeout: ModuleTimeout,
}

impl View for ModulePacket {
    type V = ModulePacketView;

    open spec fn view(&self) -> ModulePacketView {
        ModulePacketView {
            data: self.data@,
            src_port: self.src.port_id@,
            src_channel: self.src.channel_id@,
            dest_port: self.dest.port_id@,
            dest_channel: self.dest.channel_id@,
            sequence: self.sequence,
            timeout: self.timeout,
        }
    }
}

/// The block that a timeout height gives modules.
pub open spec fn timeout_block_of(t: TimeoutHeight) -> TimeoutBlock {
    match t {
        TimeoutHeight::Never => TimeoutBlock { revision: 1, height: 1 },
        TimeoutHeight::At(h) => TimeoutBlock { revision: h.revision_number, height: h.revision_height },
    }
}

/// The packet `p` as modules see it: with its timeout block only, or, where
/// `with_timestamp`, with its timeout timestamp too.
pub open spec fn module_packet_of(p: crate::ics04_channel::packet::packet_types::PacketView, with_timestamp: bool) -> ModulePacketView {
    ModulePacketView {
        data: p.data,
        src_port: p.source_port,
        src_channel: p.source_channel,
        dest_port: p.destination_port,
        dest_channel: p.destination_channel,
        sequence: p.sequence,
        timeout: ModuleTimeout {
            block: timeout_block_of(p.timeout_height),
            timestamp: if with_timestamp { Some(p.timeout_timestamp) } else { None },
        },
    }
}

/// The packet `packet` as modules see it: its timeout block, and where
/// `with_timestamp` its timeout timestamp (zero where it has none).
pub fn module_packet(packet: &Packet, with_timestamp: bool) -> (r: ModulePacket)
    ensures
        r@ == module_packet_of(packet@, with_timestamp),
{
    let block = to_ibc_timeout_block(&packet.timeout_height);
    let timestamp = if with_timestamp { Some(packet.timeout_timestamp) } else { None };
    ModulePacket {
        data: crate::encoding::copy_bytes(packet.data.as_slice()),
        src: ModuleEndpoint { port_id: packet.source_port.as_str().to_owned(), channel_id: packet.source_channel.as_str().to_owned() },
        dest: ModuleEndpoint {
            port_id: packet.destination_port.as_str().to_owned(),
            channel_id: packet.destination_channel.as_str().to_owned(),
        },
        sequence: packet.sequence,
        timeout: ModuleTimeout { block, timestamp },
    }
}

/// A packet as a message carries it.
#[derive(Debug)]
pub struct RawPacket {
    pub sequence: u64,
    pub source_port: String,
    pub source_channel: String,
    pub destination_port: String,
    pub destination_channel: String,
    pub data: Vec<u8>,
    pub timeout_height: Option<RawHeight>,
    pub timeout_timestamp: u64,
}

/// The timeout height that a raw one gives, where it is accepted (see
/// [`to_ibc_timeout_height`]).
pub open spec fn timeout_height_of(h: Option<RawHeight>) -> Option<TimeoutHeight> {
    match h {
        None => Some(TimeoutHeight::Never),
        Some(h) => if h.revision_number == 0 && h.revision_height == 0 {
            Some(TimeoutHeight::Never)
        } else if h.revision_height == 0 {
            None
        } else {
            Some(TimeoutHeight::At(Height { revision_number: h.revision_number, revision_height: h.revision_height }))
        },
    }
}

/// A raw packet as modules see it, with both its timeout block and its
/// timeout timestamp; its timeout height must be one that `ibc` accepts.
pub fn to_ibc_packet(packet: RawPacket) -> (r: Result<ModulePacket, ContractError>)
    ensures
        match timeout_height_of(packet.timeout_height) {
            None => r == Err::<ModulePacket, ContractError>(ContractError::IbcClientError { error: ClientError::InvalidHeight }),
            Some(t) => r matches Ok(m) && m@ == (ModulePacketView {
                data: packet.data@,
                src_port: packet.source_port@,
                src_channel: packet.source_channel@,
                dest_port: packet.destination_port@,
                dest_channel: packet.destination_channel@,
                sequence: packet.sequence,
                timeout: ModuleTimeout { block: timeout_block_of(t), timestamp: Some(packet.timeout_timestamp) },
            }),
        },
{
    let RawPacket { sequence, source_port, source_channel, destination_port, destination_channel, data, timeout_height, timeout_timestamp } = packet;
    let height = to_ibc_timeout_height(timeout_height)?;
    let timestamp = to_ibc_timestamp(timeout_timestamp)?;
    let block = to_ibc_timeout_block(&height);
    Ok(ModulePacket {
        data,
        src: ModuleEndpoint { port_id: source_port, channel_id: source_channel },
        dest: ModuleEndpoint { port_id: destination_port, channel_id: destination_channel },
        sequence,
        timeout: ModuleTimeout { block, timestamp: Some(timestamp) },
    })
}

/// Whether `e` is the error that the raw packet `p` gives, checking its ports
/// and channels in the order source port, source channel, destination port,
/// destination channel, then its timeout height.
pub open spec fn packet_error(p: RawPacket, e: ContractError) -> bool {
    if !ibc_port_id_valid(p.source_port@) {
        validation_error(e, "invalid port identifier"@)
    } else if !ibc_channel_id_valid(p.source_channel@) {
        validation_error(e, "invalid channel identifier"@)
    } else if !ibc_port_id_valid(p.destination_port@) {
        validation_error(e, "invalid port identifier"@)
    } else if !ibc_channel_id_valid(p.destination_channel@) {
        validation_error(e, "invalid channel identifier"@)
    } else {
        e == ContractError::IbcClientError { error: ClientError::InvalidHeight }
    }
}

/// Whether the raw packet `p` is one that the host reads: valid ports and
/// channels and an accepted timeout height.
pub open spec fn packet_readable(p: RawPacket) -> bool {
    &&& ibc_port_id_valid(p.source_port@)
    &&& ibc_channel_id_valid(p.source_channel@)
    &&& ibc_port_id_valid(p.destination_port@)
    &&& ibc_channel_id_valid(p.destination_channel@)
    &&& timeout_height_of(p.timeout_height) is Some
}

impl Packet {
    /// The packet that a message carries: its ports and channels must be valid
    /// and its timeout height one that `ibc` accepts.
    pub fn from_raw(packet: RawPacket) -> (r: Result<Packet, ContractError>)
        ensures
            if packet_readable(packet) {
                r matches Ok(x) && x@ == (crate::ics04_channel::packet::packet_types::PacketView {
                    sequence: packet.sequence,
                    source_port: packet.source_port@,
                    source_channel: packet.source_channel@,
                    destination_port: packet.destination_port@,
                    destination_channel: packet.destination_channel@,
                    data: packet.data@,
                    timeout_height: timeout_height_of(packet.timeout_height).unwrap(),
                    timeout_timestamp: packet.timeout_timestamp,
                })
            } else {
                r matches Err(e) && packet_error(packet, e)
            },
    {
        let RawPacket { sequence, source_port, source_channel, destination_port, destination_channel, data, timeout_height, timeout_timestamp } = packet;
        let source_port = to_ibc_port_id(source_port.as_str())?;
        let source_channel = to_ibc_channel_id(source_channel.as_str())?;
        let destination_port = to_ibc_port_id(destination_port.as_str())?;
        let destination_channel = to_ibc_channel_id(destination_channel.as_str())?;
        let timeout_height = to_ibc_timeout_height(timeout_height)?;
        Ok(Packet { sequence, source_port, source_channel, destination_port, destination_channel, data, timeout_height, timeout_timestamp })
    }
}

/// The height that a raw one gives, where it is accepted (see
/// [`to_ibc_height`]).
pub open spec fn height_of(h: Option<RawHeight>) -> Option<Height> {
    match h {
        None => None,
        Some(h) => if h.revision_height == 0 {
            None
        } else {
            Some(Height { revision_number: h.revision_number, revision_height: h.revision_height })
        },
    }
}

/// The error that a refused raw height gives.
pub open spec fn height_error(h: Option<RawHeight>) -> ContractError {
    match h {
        None => ContractError::InvalidHeight,
        Some(_) => ContractError::IbcClientError { error: ClientError::InvalidHeight },
    }
}

} // verus!
