//! Identifiers of clients, connections, channels, ports and modules, and the
//! plain records that the host hands to light clients and modules.
use vstd::prelude::*;

use crate::encoding::decimal;
use crate::store::KeyLike;

verus! {

/// The characters of `connection`.
pub open spec fn connection_prefix() -> Seq<char> {
    seq!['c', 'o', 'n', 'n', 'e', 'c', 't', 'i', 'o', 'n']
}

/// The characters of `channel`.
pub open spec fn channel_prefix() -> Seq<char> {
    seq!['c', 'h', 'a', 'n', 'n', 'e', 'l']
}

/// The characters of `transfer`.
pub open spec fn transfer_port() -> Seq<char> {
    seq!['t', 'r', 'a', 'n', 's', 'f', 'e', 'r']
}

/// `prefix-n`: the identifier that a counter value `n` gives.
pub open spec fn numbered_id(prefix: Seq<char>, n: nat) -> Seq<char> {
    prefix + seq!['-'] + decimal(n)
}

/// Characters that an identifier may hold besides letters and digits.
pub open spec fn is_special_id_char(c: char) -> bool {
    c == '.' || c == '_' || c == '+' || c == '-' || c == '#' || c == '[' || c == ']' || c == '<'
        || c == '>'
}

/// An ASCII letter or digit.
pub open spec fn is_ascii_alnum(c: char) -> bool {
    ('a' <= c && c <= 'z') || ('A' <= c && c <= 'Z') || ('0' <= c && c <= '9')
}

/// An identifier of ASCII characters only that IBC accepts, with between
/// `min` and `max` characters.
pub open spec fn ascii_identifier(s: Seq<char>, min: nat, max: nat) -> bool {
    &&& 1 <= min <= s.len() <= max
    &&& forall|i: int| 0 <= i < s.len() ==> is_ascii_alnum(#[trigger] s[i]) || is_special_id_char(s[i])
}

/// Whether IBC accepts `s` as a port identifier.
pub uninterp spec fn ibc_port_id_valid(s: Seq<char>) -> bool;

/// Whether IBC accepts `s` as a channel identifier.
pub uninterp spec fn ibc_channel_id_valid(s: Seq<char>) -> bool;

/// Whether IBC accepts `s` as a connection identifier.
pub uninterp spec fn ibc_connection_id_valid(s: Seq<char>) -> bool;

/// Whether IBC accepts `s` as a client identifier.
pub uninterp spec fn ibc_client_id_valid(s: Seq<char>) -> bool;

/// Whether `s` parses as a port identifier: every ASCII identifier of 2 to 128
/// characters does; of other text, `ibc` decides.
pub open spec fn port_id_parses(s: Seq<char>) -> bool {
    ascii_identifier(s, 2, 128) || ibc_port_id_valid(s)
}

/// Whether `s` parses as a channel identifier: every ASCII identifier of 8 to
/// 64 characters does; of other text, `ibc` decides.
pub open spec fn channel_id_parses(s: Seq<char>) -> bool {
    ascii_identifier(s, 8, 64) || ibc_channel_id_valid(s)
}

/// Whether `s` parses as a connection identifier: every ASCII identifier of 10
/// to 64 characters does; of other text, `ibc` decides.
pub open spec fn connection_id_parses(s: Seq<char>) -> bool {
    ascii_identifier(s, 10, 64) || ibc_connection_id_valid(s)
}

/// Whether `s` parses as a client identifier: every ASCII identifier of 9 to 64
/// characters does; of other text, `ibc` decides.
pub open spec fn client_id_parses(s: Seq<char>) -> bool {
    ascii_identifier(s, 9, 64) || ibc_client_id_valid(s)
}

/// What `ibc` makes of a client type and a counter: the client identifier, or
/// nothing where it refuses the client type.
pub uninterp spec fn ibc_client_id_for(client_type: Seq<char>, counter: u64) -> Option<Seq<char>>;

/// `ibc`'s `ConnectionId::new`: `connection-{n}` (its source formats the prefix,
/// a hyphen and the counter).
#[verifier::external_body]
fn ibc_connection_id_new(n: u64) -> (s: String)
    ensures
        s@ == numbered_id(connection_prefix(), n as nat),
{
    ibc::core::host::types::identifiers::ConnectionId::new(n).as_str().to_string()
}

/// `ibc`'s `ChannelId::new`: `channel-{n}`.
#[verifier::external_body]
fn ibc_channel_id_new(n: u64) -> (s: String)
    ensures
        s@ == numbered_id(channel_prefix(), n as nat),
{
    ibc::core::host::types::identifiers::ChannelId::new(n).as_str().to_string()
}

/// `ibc`'s `PortId::transfer`: the port `transfer`.
#[verifier::external_body]
fn ibc_transfer_port() -> (s: String)
    ensures
        s@ == transfer_port(),
{
    ibc::core::host::types::identifiers::PortId::transfer().as_str().to_string()
}

/// `ibc`'s `ModuleId::new`, which keeps the text it is given.
#[verifier::external_body]
fn ibc_module_id_new(s: String) -> (r: String)
    ensures
        r@ == s@,
{
    ibc::core::router::types::module::ModuleId::new(s).to_string()
}

/// `ibc`'s `ClientId::new`: the identifier `{client_type}-{counter}`, where `ibc`
/// accepts the client type. Which client types it accepts (letters and digits in
/// the Unicode sense, after trimming white space) is left to the name
/// `ibc_client_id_for`; of a client type of ASCII identifier characters that is
/// 7 to 43 long, the source shows that it is accepted unchanged.
#[verifier::external_body]
fn ibc_client_id_new(client_type: &str, counter: u64) -> (r: Option<String>)
    ensures
        (if r is Some { Some(r.unwrap()@) } else { None }) == ibc_client_id_for(client_type@, counter),
        ascii_identifier(client_type@, 7, 43) ==> r is Some && r.unwrap()@ == numbered_id(client_type@, counter as nat),
{
    match ibc::core::host::types::identifiers::ClientId::new(client_type, counter) {
        Ok(id) => Some(id.as_str().to_string()),
        Err(_) => None,
    }
}

/// `ibc`'s port identifier check (`PortId::from_str`). Every ASCII identifier of
/// 2 to 128 characters passes it.
#[verifier::external_body]
fn ibc_check_port_id(s: &str) -> (r: bool)
    ensures
        r == ibc_port_id_valid(s@),
        ascii_identifier(s@, 2, 128) ==> r,
{
    ibc::core::host::types::identifiers::PortId::new(s.to_string()).is_ok()
}

/// `ibc`'s channel identifier check (`ChannelId::from_str`). Every ASCII
/// identifier of 8 to 64 characters passes it.
#[verifier::external_body]
fn ibc_check_channel_id(s: &str) -> (r: bool)
    ensures
        r == ibc_channel_id_valid(s@),
        ascii_identifier(s@, 8, 64) ==> r,
{
    <ibc::core::host::types::identifiers::ChannelId as core::str::FromStr>::from_str(s).is_ok()
}

/// `ibc`'s connection identifier check (`ConnectionId::from_str`). Every ASCII
/// identifier of 10 to 64 characters passes it.
#[verifier::external_body]
fn ibc_check_connection_id(s: &str) -> (r: bool)
    ensures
        r == ibc_connection_id_valid(s@),
        ascii_identifier(s@, 10, 64) ==> r,
{
    <ibc::core::host::types::identifiers::ConnectionId as core::str::FromStr>::from_str(s).is_ok()
}

/// `ibc`'s client identifier check (`ClientId::from_str`). Every ASCII identifier
/// of 9 to 64 characters passes it.
#[verifier::external_body]
fn ibc_check_client_id(s: &str) -> (r: bool)
    ensures
        r == ibc_client_id_valid(s@),
        ascii_identifier(s@, 9, 64) ==> r,
{
    <ibc::core::host::types::identifiers::ClientId as core::str::FromStr>::from_str(s).is_ok()
}

/// A client identifier such as `iconclient-0`.
#[derive(Debug, Clone, PartialEq, Eq)]
pub struct ClientId(String);

/// A client type such as `iconclient`.
#[derive(Debug, Clone, PartialEq, Eq)]
pub struct ClientType(String);

/// A connection identifier `connection-{n}`.
#[derive(Debug, Clone, PartialEq, Eq)]
pub struct ConnectionId(String);

/// A channel identifier `channel-{n}`.
#[derive(Debug, Clone, PartialEq, Eq)]
pub struct ChannelId(String);

/// A port identifier.
#[derive(Debug, Clone, PartialEq, Eq)]
pub struct PortId(String);

/// The identifier of a module (a contract address) bound to a port.
#[derive(Debug, Clone, PartialEq, Eq)]
pub struct ModuleId(String);

impl View for ClientId {
    type V = Seq<char>;

    closed spec fn view(&self) -> Seq<char> {
        self.0@
    }
}

impl View for ClientType {
    type V = Seq<char>;

    closed spec fn view(&self) -> Seq<char> {
        self.0@
    }
}

impl View for ConnectionId {
    type V = Seq<char>;

    closed spec fn view(&self) -> Seq<char> {
        self.0@
    }
}

impl View for ChannelId {
    type V = Seq<char>;

    closed spec fn view(&self) -> Seq<char> {
        self.0@
    }
}

impl View for PortId {
    type V = Seq<char>;

    closed spec fn view(&self) -> Seq<char> {
        self.0@
    }
}

impl View for ModuleId {
    type V = Seq<char>;

    closed spec fn view(&self) -> Seq<char> {
        self.0@
    }
}

impl KeyLike for ClientId {
    fn same_key(&self, other: &Self) -> (r: bool) {
        self.0 == other.0
    }

    fn duplicate(&self) -> (r: Self)
        ensures
            r == *self,
    {
        ClientId(self.0.clone())
    }
}

impl KeyLike for ClientType {
    fn same_key(&self, other: &Self) -> (r: bool) {
        self.0 == other.0
    }

    fn duplicate(&self) -> (r: Self)
        ensures
            r == *self,
    {
        ClientType(self.0.clone())
    }
}

impl KeyLike for ConnectionId {
    fn same_key(&self, other: &Self) -> (r: bool) {
        self.0 == other.0
    }

    fn duplicate(&self) -> (r: Self)
        ensures
            r == *self,
    {
        ConnectionId(self.0.clone())
    }
}

impl KeyLike for ChannelId {
    fn same_key(&self, other: &Self) -> (r: bool) {
        self.0 == other.0
    }

    fn duplicate(&self) -> (r: Self)
        ensures
            r == *self,
    {
        ChannelId(self.0.clone())
    }
}

impl KeyLike for PortId {
    fn same_key(&self, other: &Self) -> (r: bool) {
        self.0 == other.0
    }

    fn duplicate(&self) -> (r: Self)
        ensures
            r == *self,
    {
        PortId(self.0.clone())
    }
}

impl KeyLike for ModuleId {
    fn same_key(&self, other: &Self) -> (r: bool) {
        self.0 == other.0
    }

    fn duplicate(&self) -> (r: Self)
        ensures
            r == *self,
    {
        ModuleId(self.0.clone())
    }
}

impl ClientId {
    /// The client identifier for the `counter`-th client of `client_type`, where
    /// `ibc` accepts the client type.
    pub fn new(client_type: &ClientType, counter: u64) -> (r: Option<ClientId>)
        ensures
            match r {
                Some(id) => ibc_client_id_for(client_type@, counter) == Some(id@),
                None => ibc_client_id_for(client_type@, counter) is None,
            },
            ascii_identifier(client_type@, 7, 43) ==> (r matches Some(id) && id@ == numbered_id(
                client_type@,
                counter as nat,
            )),
    {
        match ibc_client_id_new(client_type.0.as_str(), counter) {
            Some(s) => Some(ClientId(s)),
            None => None,
        }
    }

    /// Parses a client identifier.
    pub fn from_string(s: String) -> (r: Option<ClientId>)
        ensures
            r is Some <==> ibc_client_id_valid(s@),
            ascii_identifier(s@, 9, 64) ==> r is Some,
            r matches Some(id) ==> id@ == s@,
    {
        if ibc_check_client_id(s.as_str()) {
            Some(ClientId(s))
        } else {
            None
        }
    }

    pub fn as_str(&self) -> (r: &str)
        ensures
            r@ == self@,
    {
        self.0.as_str()
    }
}

impl ClientType {
    pub fn new(s: String) -> (r: ClientType)
        ensures
            r@ == s@,
    {
        ClientType(s)
    }

    pub fn as_str(&self) -> (r: &str)
        ensures
            r@ == self@,
    {
        self.0.as_str()
    }
}

impl ConnectionId {
    /// `connection-{identifier}`.
    pub fn new(identifier: u64) -> (r: ConnectionId)
        ensures
            r@ == numbered_id(connection_prefix(), identifier as nat),
    {
        ConnectionId(ibc_connection_id_new(identifier))
    }

    /// `connection`.
    pub fn prefix() -> (r: &'static str)
        ensures
            r@ == connection_prefix(),
    {
        let r = "connection";
        proof {
            reveal_strlit("connection");
        }
        r
    }

    /// Parses a connection identifier.
    pub fn from_string(s: String) -> (r: Option<ConnectionId>)
        ensures
            r is Some <==> ibc_connection_id_valid(s@),
            ascii_identifier(s@, 10, 64) ==> r is Some,
            r matches Some(id) ==> id@ == s@,
    {
        if ibc_check_connection_id(s.as_str()) {
            Some(ConnectionId(s))
        } else {
            None
        }
    }

    pub fn as_str(&self) -> (r: &str)
        ensures
            r@ == self@,
    {
        self.0.as_str()
    }

    pub fn as_bytes(&self) -> (r: &[u8])
        ensures
            r@ == vstd::utf8::encode_utf8(self@),
    {
        self.0.as_str().as_bytes()
    }

    /// The identifier itself.
    pub fn connection_id(&self) -> (r: &str)
        ensures
            r@ == self@,
    {
        self.0.as_str()
    }
}

impl ChannelId {
    /// `channel-{identifier}`.
    pub fn new(identifier: u64) -> (r: ChannelId)
        ensures
            r@ == numbered_id(channel_prefix(), identifier as nat),
    {
        ChannelId(ibc_channel_id_new(identifier))
    }

    /// Parses a channel identifier.
    pub fn from_string(s: String) -> (r: Option<ChannelId>)
        ensures
            r is Some <==> ibc_channel_id_valid(s@),
            ascii_identifier(s@, 8, 64) ==> r is Some,
            r matches Some(id) ==> id@ == s@,
    {
        if ibc_check_channel_id(s.as_str()) {
            Some(ChannelId(s))
        } else {
            None
        }
    }

    pub fn as_str(&self) -> (r: &str)
        ensures
            r@ == self@,
    {
        self.0.as_str()
    }

    pub fn as_bytes(&self) -> (r: &[u8])
        ensures
            r@ == vstd::utf8::encode_utf8(self@),
    {
        self.0.as_str().as_bytes()
    }

    /// The identifier itself.
    pub fn ibc_channel_id(&self) -> (r: &str)
        ensures
            r@ == self@,
    {
        self.0.as_str()
    }
}

impl PortId {
    /// The port `transfer`.
    pub fn transfer() -> (r: PortId)
        ensures
            r@ == transfer_port(),
    {
        PortId(ibc_transfer_port())
    }

    /// Parses a port identifier.
    pub fn from_string(s: String) -> (r: Option<PortId>)
        ensures
            r is Some <==> ibc_port_id_valid(s@),
            ascii_identifier(s@, 2, 128) ==> r is Some,
            r matches Some(id) ==> id@ == s@,
    {
        if ibc_check_port_id(s.as_str()) {
            Some(PortId(s))
        } else {
            None
        }
    }

    pub fn as_str(&self) -> (r: &str)
        ensures
            r@ == self@,
    {
        self.0.as_str()
    }

    pub fn as_bytes(&self) -> (r: &[u8])
        ensures
            r@ == vstd::utf8::encode_utf8(self@),
    {
        self.0.as_str().as_bytes()
    }

    /// The identifier itself.
    pub fn ibc_port_id(&self) -> (r: &str)
        ensures
            r@ == self@,
    {
        self.0.as_str()
    }
}

impl ModuleId {
    pub fn new(s: String) -> (r: ModuleId)
        ensures
            r@ == s@,
    {
        ModuleId(ibc_module_id_new(s))
    }

    /// The identifier itself.
    pub fn module_id(&self) -> (r: &str)
        ensures
            r@ == self@,
    {
        self.0.as_str()
    }

    pub fn as_bytes(&self) -> (r: &[u8])
        ensures
            r@ == vstd::utf8::encode_utf8(self@),
    {
        self.0.as_str().as_bytes()
    }

    pub fn as_str(&self) -> (r: &str)
        ensures
            r@ == self@,
    {
        self.0.as_str()
    }
}

} // verus!
