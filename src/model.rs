use vstd::prelude::*;
use vstd::string::StringExecFns;

verus! {

/// What the tunnel service reports about the current connection.
#[derive(Debug, Clone)]
pub struct ConnectionStatus {
    /// When the tunnel came up, if it is up.
    pub connected_since: Option<String>,
}

/// A request sent to the tunnel service.
#[derive(Debug, Clone)]
pub enum TunnelServiceRequest {
    Connect(TunnelParams),
    Disconnect,
    GetStatus,
}

/// The tunnel service's answer to a request.
#[derive(Debug, Clone)]
pub enum TunnelServiceResponse {
    Success,
    Error(String),
    ConnectionStatus(ConnectionStatus),
}

/// Everything the tunnel service needs to bring a tunnel up.
#[derive(Debug, Clone)]
pub struct TunnelParams {
    pub server_name: String,
    pub user_name: String,
    pub password: String,
    pub log_level: String,
    pub reauth: bool,
    pub search_domains: Vec<String>,
    pub default_route: bool,
    pub no_routing: bool,
    pub no_dns: bool,
    pub no_cert_check: bool,
    pub tunnel_type: TunnelType,
    /// Path of a CA certificate file, as the user typed it.
    pub ca_cert: Option<String>,
    pub login_type: LoginType,
}

/// The settings kept between launches.
#[derive(Debug, Clone)]
pub struct UserConfig {
    pub tunnel_params: TunnelParams,
    pub remember_me: bool,
}

/// How the tunnel is carried to the gateway.
#[derive(Debug, Clone, Copy, PartialEq, Eq, Structural)]
pub enum TunnelType {
    Ssl,
    Ipsec,
}

/// How the user authenticates to the gateway.
#[derive(Debug, Clone, Copy, PartialEq, Eq, Structural)]
pub enum LoginType {
    Password,
    PasswordWithMfa,
    PasswordWithMsAuth,
    EmergencyAccess,
    SsoAzure,
}

/// The tunnel parameters as plain mathematical values.
pub ghost struct TunnelParamsView {
    pub server_name: Seq<char>,
    pub user_name: Seq<char>,
    pub password: Seq<char>,
    pub log_level: Seq<char>,
    pub reauth: bool,
    pub search_domains: Seq<Seq<char>>,
    pub default_route: bool,
    pub no_routing: bool,
    pub no_dns: bool,
    pub no_cert_check: bool,
    pub tunnel_type: TunnelType,
    pub ca_cert: Option<Seq<char>>,
    pub login_type: LoginType,
}

/// A user configuration as plain mathematical values.
pub ghost struct UserConfigView {
    pub tunnel_params: TunnelParamsView,
    pub remember_me: bool,
}

pub open spec fn opt_string_view(s: Option<String>) -> Option<Seq<char>> {
    match s {
        Some(t) => Some(t@),
        None => None,
    }
}

pub open spec fn strings_view(v: Seq<String>) -> Seq<Seq<char>> {
    v.map_values(|s: String| s@)
}

impl View for TunnelParams {
    type V = TunnelParamsView;

    open spec fn view(&self) -> TunnelParamsView {
        TunnelParamsView {
            server_name: self.server_name@,
            user_name: self.user_name@,
            password: self.password@,
            log_level: self.log_level@,
            reauth: self.reauth,
            search_domains: strings_view(self.search_domains@),
            default_route: self.default_route,
            no_routing: self.no_routing,
            no_dns: self.no_dns,
            no_cert_check: self.no_cert_check,
            tunnel_type: self.tunnel_type,
            ca_cert: opt_string_view(self.ca_cert),
            login_type: self.login_type,
        }
    }
}

impl View for UserConfig {
    type V = UserConfigView;

    open spec fn view(&self) -> UserConfigView {
        UserConfigView { tunnel_params: self.tunnel_params@, remember_me: self.remember_me }
    }
}

/// The parameters a fresh installation starts from: log level "info",
/// reauthentication on, an SSL tunnel, password with MS authenticator, one
/// empty search domain, every other text empty and every other flag off.
pub open spec fn default_params() -> TunnelParamsView {
    TunnelParamsView {
        server_name: Seq::empty(),
        user_name: Seq::empty(),
        password: Seq::empty(),
        log_level: "info"@,
        reauth: true,
        search_domains: seq![Seq::empty()],
        default_route: false,
        no_routing: false,
        no_dns: false,
        no_cert_check: false,
        tunnel_type: TunnelType::Ssl,
        ca_cert: None,
        login_type: LoginType::PasswordWithMsAuth,
    }
}

impl Default for TunnelParams {
    fn default() -> (r: Self)
        ensures
            r@ == default_params(),
    {
        let mut search_domains: Vec<String> = Vec::new();
        search_domains.push(String::new());
        let r = TunnelParams {
            server_name: String::new(),
            user_name: String::new(),
            password: String::new(),
            log_level: String::from_str("info"),
            reauth: true,
            search_domains,
            default_route: false,
            no_routing: false,
            no_dns: false,
            no_cert_check: false,
            tunnel_type: TunnelType::Ssl,
            ca_cert: None,
            login_type: LoginType::PasswordWithMsAuth,
        };
        assert(r@.search_domains =~= seq![Seq::<char>::empty()]);
        r
    }
}

/// Whether two strings hold the same characters.
fn same_text(a: &str, b: &str) -> (r: bool)
    ensures
        r == (a@ == b@),
{
    a.to_owned() == b.to_owned()
}

pub open spec fn tunnel_type_label(t: TunnelType) -> Seq<char> {
    match t {
        TunnelType::Ssl => "SSL"@,
        TunnelType::Ipsec => "IPSec"@,
    }
}

/// The tunnel type a label names; an unknown label gives SSL.
pub open spec fn tunnel_type_of_label(label: Seq<char>) -> TunnelType {
    if label == "IPSec"@ {
        TunnelType::Ipsec
    } else {
        TunnelType::Ssl
    }
}

impl TunnelType {
    /// The label shown for this tunnel type.
    pub fn to_display_string(&self) -> (r: String)
        ensures
            r@ == tunnel_type_label(*self),
    {
        match self {
            TunnelType::Ssl => String::from_str("SSL"),
            TunnelType::Ipsec => String::from_str("IPSec"),
        }
    }

    /// The tunnel type that a selector label stands for.
    pub fn from_label(label: &str) -> (r: TunnelType)
        ensures
            r == tunnel_type_of_label(label@),
    {
        if same_text(label, "IPSec") {
            TunnelType::Ipsec
        } else {
            TunnelType::Ssl
        }
    }
}

pub open spec fn login_type_label(t: LoginType) -> Seq<char> {
    match t {
        LoginType::Password => "Password"@,
        LoginType::PasswordWithMfa => "Password with MFA"@,
        LoginType::PasswordWithMsAuth => "Password with MS auth"@,
        LoginType::EmergencyAccess => "Emergency access"@,
        LoginType::SsoAzure => "SSO Azure"@,
    }
}

/// The login type a label names; an unknown label gives plain password.
pub open spec fn login_type_of_label(label: Seq<char>) -> LoginType {
    if label == "Password with MFA"@ {
        LoginType::PasswordWithMfa
    } else if label == "Password with MS auth"@ {
        LoginType::PasswordWithMsAuth
    } else if label == "Emergency access"@ {
        LoginType::EmergencyAccess
    } else if label == "SSO Azure"@ {
        LoginType::SsoAzure
    } else {
        LoginType::Password
    }
}

impl LoginType {
    /// The label shown for this login type.
    pub fn to_display_string(&self) -> (r: String)
        ensures
            r@ == login_type_label(*self),
    {
        match self {
            LoginType::Password => String::from_str("Password"),
            LoginType::PasswordWithMfa => String::from_str("Password with MFA"),
            LoginType::PasswordWithMsAuth => String::from_str("Password with MS auth"),
            LoginType::EmergencyAccess => String::from_str("Emergency access"),
            LoginType::SsoAzure => String::from_str("SSO Azure"),
        }
    }

    /// The login type that a selector label stands for.
    pub fn from_label(label: &str) -> (r: LoginType)
        ensures
            r == login_type_of_label(label@),
    {
        if same_text(label, "Password with MFA") {
            LoginType::PasswordWithMfa
        } else if same_text(label, "Password with MS auth") {
            LoginType::PasswordWithMsAuth
        } else if same_text(label, "Emergency access") {
            LoginType::EmergencyAccess
        } else if same_text(label, "SSO Azure") {
            LoginType::SsoAzure
        } else {
            LoginType::Password
        }
    }
}

/// Reading back the label shown for a tunnel type or a login type gives that
/// type again.
pub proof fn lemma_labels_read_back(t: TunnelType, l: LoginType)
    ensures
        tunnel_type_of_label(tunnel_type_label(t)) == t,
        login_type_of_label(login_type_label(l)) == l,
{
    reveal_strlit("SSL");
    reveal_strlit("IPSec");
    reveal_strlit("Password");
    reveal_strlit("Password with MFA");
    reveal_strlit("Password with MS auth");
    reveal_strlit("Emergency access");
    reveal_strlit("SSO Azure");
    assert("SSL"@.len() == 3 && "IPSec"@.len() == 5);
    assert("Password"@.len() == 8 && "Password with MFA"@.len() == 17);
    assert("Password with MS auth"@.len() == 21 && "Emergency access"@.len() == 16);
    assert("SSO Azure"@.len() == 9);
}

/// The state a checkbox reports: "true" is checked, anything else is not.
pub fn checkbox_checked(value: &str) -> (r: bool)
    ensures
        r == (value@ == "true"@),
{
    same_text(value, "true")
}

} // verus!
