use vstd::prelude::*;
use vstd::string::StringExecFns;
use vstd::utf8::{decode_utf8, valid_utf8};
use crate::model::{
    ConnectionStatus, TunnelParams, TunnelParamsView, TunnelServiceRequest, TunnelServiceResponse,
    UserConfig, UserConfigView, default_params,
};

verus! {

/// Address of the tunnel service on the loopback interface.
pub const SERVER_ADDRESS: &'static str = "127.0.0.1:7779";

/// Address the client socket binds to; the port is picked by the system.
pub const CLIENT_BIND_ADDRESS: &'static str = "127.0.0.1:0";

/// Where the user configuration is kept.
pub const USER_CONF_PATH: &'static str = "user-config.json";

/// Size of the buffer a reply is received into.
pub const MAX_PACKET_SIZE: usize = 1000000;

/// Read and write timeout of the client socket.
pub const SOCKET_TIMEOUT_MILLIS: u64 = 200;

/// Pause between two status queries.
pub const POLL_INTERVAL_SECS: u64 = 5;

/// Why a status query gave no answer.
#[derive(Debug, Clone, Copy, PartialEq, Eq, Structural)]
pub enum ServiceError {
    /// Nothing came back from the service.
    NotReceived,
    /// What came back is not UTF-8 text.
    InvalidText,
    /// The text that came back is no service response.
    Unparseable,
}

/// Which of the required fields of the login form are empty.
#[derive(Debug, Clone, Copy, PartialEq, Eq, Structural)]
pub struct MissingFields {
    pub username: bool,
    pub password: bool,
    pub server_address: bool,
}

impl MissingFields {
    /// Whether no required field is missing.
    pub fn is_complete(&self) -> (r: bool)
        ensures
            r == self.complete(),
    {
        !self.username && !self.password && !self.server_address
    }

    pub open spec fn complete(self) -> bool {
        !self.username && !self.password && !self.server_address
    }
}

/// What pressing "Connect" leads to: the fields to flag, and the request to
/// send when none is missing.
#[derive(Debug, Clone)]
pub struct ConnectAttempt {
    pub missing: MissingFields,
    pub request: Option<TunnelServiceRequest>,
}

/// The two indicators of the status line: whether the service answers, and
/// whether the tunnel is up.
#[derive(Debug, Clone, Copy, PartialEq, Eq, Structural)]
pub struct StatusIndicators {
    pub service_running: bool,
    pub connected: bool,
}

/// The flags for the required fields of these parameters.
pub open spec fn missing_of(p: TunnelParamsView) -> MissingFields {
    MissingFields {
        username: p.user_name.len() == 0,
        password: p.password.len() == 0,
        server_address: p.server_name.len() == 0,
    }
}

/// The parameters with the password taken out.
pub open spec fn without_password(p: TunnelParamsView) -> TunnelParamsView {
    TunnelParamsView { password: Seq::empty(), ..p }
}

/// What is written to disk for a configuration: without the password when
/// the user asked to be remembered, and the defaults otherwise.
pub open spec fn saved_form(c: UserConfigView) -> UserConfigView {
    if c.remember_me {
        UserConfigView { tunnel_params: without_password(c.tunnel_params), remember_me: true }
    } else {
        UserConfigView { tunnel_params: default_params(), remember_me: false }
    }
}

/// Whether a response says that the tunnel is up.
pub open spec fn connected_by(r: TunnelServiceResponse) -> bool {
    match r {
        TunnelServiceResponse::Success => true,
        TunnelServiceResponse::Error(_) => false,
        TunnelServiceResponse::ConnectionStatus(s) => s.connected_since is Some,
    }
}

/// The status line after a status query with this outcome.
pub open spec fn indicators_after(prev: StatusIndicators, outcome: Result<bool, ServiceError>) -> StatusIndicators {
    match outcome {
        Ok(c) => StatusIndicators { service_running: true, connected: c },
        Err(_) => StatusIndicators { service_running: false, connected: prev.connected },
    }
}

/// The bytes with every zero byte left out.
pub open spec fn without_nul(s: Seq<u8>) -> Seq<u8>
    decreases s.len(),
{
    if s.len() == 0 {
        Seq::empty()
    } else if s.last() == 0 {
        without_nul(s.drop_last())
    } else {
        without_nul(s.drop_last()).push(s.last())
    }
}

/// The text a reply stands for, when the service answered: its bytes
/// without zero bytes, read as UTF-8.
pub open spec fn reply_text(buf: Seq<u8>, received: Option<usize>) -> Result<Seq<char>, ServiceError> {
    match received {
        Some(n) if n > 0 => if valid_utf8(without_nul(buf)) {
            Ok(decode_utf8(without_nul(buf)))
        } else {
            Err(ServiceError::InvalidText)
        },
        _ => Err(ServiceError::NotReceived),
    }
}

/// Relies on `String::from_utf8`: it accepts exactly the valid UTF-8
/// sequences, and the string then holds the characters they encode.
#[verifier::external_body]
fn utf8_string(bytes: Vec<u8>) -> (r: Option<String>)
    ensures
        r is Some <==> valid_utf8(bytes@),
        r matches Some(s) ==> s@ == decode_utf8(bytes@),
{
    String::from_utf8(bytes).ok()
}

/// The parameters with the password cleared and everything else kept.
pub fn remove_password(params: TunnelParams) -> (r: TunnelParams)
    ensures
        r@ == without_password(params@),
{
    let mut params = params;
    params.password = String::new();
    params
}

/// The configuration to write to disk for what the user has entered.
pub fn config_to_save(config: UserConfig) -> (r: UserConfig)
    ensures
        r@ == saved_form(config@),
{
    if config.remember_me {
        UserConfig { tunnel_params: remove_password(config.tunnel_params), remember_me: true }
    } else {
        UserConfig { tunnel_params: TunnelParams::default(), remember_me: false }
    }
}

/// The configuration to start from: the one read from disk, or the
/// defaults without remember-me when there is none.
pub fn startup_config(loaded: Option<UserConfig>) -> (r: UserConfig)
    ensures
        r@ == (match loaded {
            Some(c) => c@,
            None => UserConfigView { tunnel_params: default_params(), remember_me: false },
        }),
{
    match loaded {
        Some(c) => c,
        None => UserConfig { tunnel_params: TunnelParams::default(), remember_me: false },
    }
}

/// Which required fields are empty.
pub fn missing_fields(params: &TunnelParams) -> (r: MissingFields)
    ensures
        r == missing_of(params@),
{
    MissingFields {
        username: params.user_name.as_str().is_empty(),
        password: params.password.as_str().is_empty(),
        server_address: params.server_name.as_str().is_empty(),
    }
}

/// Handles a press of "Connect": flags exactly the empty required fields, and
/// asks to send a connect request with these parameters only when none is
/// empty.
pub fn submit_connect(params: TunnelParams) -> (r: ConnectAttempt)
    ensures
        r.missing == missing_of(params@),
        r.request is None <==> !missing_of(params@).complete(),
        r.request matches Some(q) ==> (q matches TunnelServiceRequest::Connect(p) && p@ == params@),
{
    let missing = missing_fields(&params);
    if missing.is_complete() {
        ConnectAttempt { missing, request: Some(TunnelServiceRequest::Connect(params)) }
    } else {
        ConnectAttempt { missing, request: None }
    }
}

/// The datagram that asks for the connection status.
pub fn status_request_text() -> (r: String)
    ensures
        r@ == "\"GetStatus\""@,
{
    String::from_str("\"GetStatus\"")
}

/// The datagram that asks to take the tunnel down.
pub fn disconnect_request_text() -> (r: String)
    ensures
        r@ == "\"Disconnect\""@,
{
    String::from_str("\"Disconnect\"")
}

/// The datagram that asks to bring the tunnel up, around the parameters'
/// JSON text.
pub fn connect_request_text(params_json: &str) -> (r: String)
    ensures
        r@ == "{\"Connect\": "@ + params_json@ + "}"@,
{
    let mut r = String::from_str("{\"Connect\": ");
    r.append(params_json);
    r.append("}");
    r
}

/// The bytes with every zero byte left out, in their order.
pub fn strip_nul_bytes(buf: &Vec<u8>) -> (r: Vec<u8>)
    ensures
        r@ == without_nul(buf@),
{
    let mut out: Vec<u8> = Vec::new();
    let mut i: usize = 0;
    while i < buf.len()
        invariant
            i <= buf@.len(),
            out@ == without_nul(buf@.subrange(0, i as int)),
        decreases buf@.len() - i,
    {
        assert(buf@.subrange(0, i as int + 1).drop_last() =~= buf@.subrange(0, i as int));
        if buf[i] != 0 {
            out.push(buf[i]);
        }
        i = i + 1;
    }
    assert(buf@.subrange(0, buf@.len() as int) =~= buf@);
    out
}

/// The text of a reply, from the receive buffer and the byte count that the
/// receive gave (`None` where it failed): an error where nothing came back,
/// else the buffer without zero bytes, read as UTF-8.
pub fn response_text(buf: &Vec<u8>, received: Option<usize>) -> (r: Result<String, ServiceError>)
    ensures
        r matches Ok(s) ==> reply_text(buf@, received) == Ok::<Seq<char>, ServiceError>(s@),
        r matches Err(e) ==> reply_text(buf@, received) == Err::<Seq<char>, ServiceError>(e),
{
    match received {
        Some(n) if n > 0 => {
            match utf8_string(strip_nul_bytes(buf)) {
                Some(s) => Ok(s),
                None => Err(ServiceError::InvalidText),
            }
        },
        _ => Err(ServiceError::NotReceived),
    }
}

/// Whether a response says that the tunnel is up: a status with a start
/// time, or a plain success.
pub fn connection_from_response(response: &TunnelServiceResponse) -> (r: bool)
    ensures
        r == connected_by(*response),
{
    match response {
        TunnelServiceResponse::Success => true,
        TunnelServiceResponse::Error(_) => false,
        TunnelServiceResponse::ConnectionStatus(s) => s.connected_since.is_some(),
    }
}

/// The answer to a status query, from the response parsed out of the reply
/// (`None` where the reply is no response).
pub fn status_from_reply(parsed: Option<&TunnelServiceResponse>) -> (r: Result<bool, ServiceError>)
    ensures
        r == (match parsed {
            Some(resp) => Ok(connected_by(*resp)),
            None => Err(ServiceError::Unparseable),
        }),
{
    match parsed {
        Some(resp) => Ok(connection_from_response(resp)),
        None => Err(ServiceError::Unparseable),
    }
}

/// The status line after one status query: where the service answered, it
/// runs and the tunnel is as it says; where it did not, the service is shown
/// as stopped and the tunnel indicator is left as it was.
pub fn apply_status(prev: StatusIndicators, outcome: Result<bool, ServiceError>) -> (r: StatusIndicators)
    ensures
        r == indicators_after(prev, outcome),
{
    match outcome {
        Ok(c) => StatusIndicators { service_running: true, connected: c },
        Err(_) => StatusIndicators { service_running: false, connected: prev.connected },
    }
}

/// Saving a configuration and reading it back gives the entered record
/// without its password when remember-me is set, and the default parameters
/// without remember-me otherwise; saving what was read back writes the same
/// record again.
pub proof fn lemma_saved_config_round_trip(c: UserConfigView)
    ensures
        saved_form(c).remember_me == c.remember_me,
        c.remember_me ==> saved_form(c).tunnel_params == (TunnelParamsView {
            password: Seq::empty(),
            ..c.tunnel_params
        }),
        !c.remember_me ==> saved_form(c).tunnel_params == default_params(),
        saved_form(saved_form(c)) == saved_form(c),
{
}

/// With username, password and server address all empty, pressing "Connect"
/// flags all three fields and sends nothing; in general a request goes out
/// exactly when none of the three is empty.
pub proof fn lemma_required_fields(p: TunnelParamsView)
    ensures
        missing_of(p).complete() <==> (p.user_name.len() > 0 && p.password.len() > 0
            && p.server_name.len() > 0),
        (p.user_name.len() == 0 && p.password.len() == 0 && p.server_name.len() == 0) ==> missing_of(p)
            == (MissingFields { username: true, password: true, server_address: true }),
{
}

/// A status with a start time, or a plain success, means connected; a status
/// without one, or an error, means disconnected; a reply that is no response
/// shows the service as stopped.
pub proof fn lemma_status_mapping(since: String, message: String, prev: StatusIndicators)
    ensures
        connected_by(
            TunnelServiceResponse::ConnectionStatus(ConnectionStatus { connected_since: Some(since) }),
        ),
        !connected_by(
            TunnelServiceResponse::ConnectionStatus(ConnectionStatus { connected_since: None }),
        ),
        connected_by(TunnelServiceResponse::Success),
        !connected_by(TunnelServiceResponse::Error(message)),
        !indicators_after(prev, Err(ServiceError::Unparseable)).service_running,
        !indicators_after(prev, Err(ServiceError::NotReceived)).service_running,
        !indicators_after(prev, Err(ServiceError::InvalidText)).service_running,
{
}

} // verus!
