use vstd::prelude::*;

use crate::redact::{empty_or_redacted, spec_empty_or_redacted};
use crate::text::texts_equal;

verus! {

/// A length of time, as configured for polling and token lifetimes.
#[derive(Debug, Clone, Copy, PartialEq, Eq, Structural)]
pub enum TimeSpan {
    OneSecond,
    FiveSeconds,
    TenSeconds,
    FifteenSeconds,
    ThirtySeconds,
    OneMinute,
    TwoMinutes,
    FiveMinutes,
    TenMinutes,
    FifteenMinutes,
    ThirtyMinutes,
    OneHour,
    TwoHours,
    SixHours,
    EightHours,
    TwelveHours,
    OneDay,
    ThreeDay,
    OneWeek,
    TwoWeeks,
    ThirtyDays,
}

/// The number of seconds in a length of time.
pub open spec fn time_span_seconds(t: TimeSpan) -> int {
    match t {
        TimeSpan::OneSecond => 1,
        TimeSpan::FiveSeconds => 5,
        TimeSpan::TenSeconds => 10,
        TimeSpan::FifteenSeconds => 15,
        TimeSpan::ThirtySeconds => 30,
        TimeSpan::OneMinute => 60,
        TimeSpan::TwoMinutes => 120,
        TimeSpan::FiveMinutes => 300,
        TimeSpan::TenMinutes => 600,
        TimeSpan::FifteenMinutes => 900,
        TimeSpan::ThirtyMinutes => 1800,
        TimeSpan::OneHour => 3600,
        TimeSpan::TwoHours => 7200,
        TimeSpan::SixHours => 21600,
        TimeSpan::EightHours => 28800,
        TimeSpan::TwelveHours => 43200,
        TimeSpan::OneDay => 86400,
        TimeSpan::ThreeDay => 259200,
        TimeSpan::OneWeek => 604800,
        TimeSpan::TwoWeeks => 1209600,
        TimeSpan::ThirtyDays => 2592000,
    }
}

/// The seconds in a unit of a configuration name: `sec`, `min`, `hr`, `day`
/// or `wk`.
pub open spec fn unit_seconds(unit: Seq<char>) -> int {
    if unit =~= seq!['s', 'e', 'c'] {
        1
    } else if unit =~= seq!['m', 'i', 'n'] {
        60
    } else if unit =~= seq!['h', 'r'] {
        3600
    } else if unit =~= seq!['d', 'a', 'y'] {
        86400
    } else if unit =~= seq!['w', 'k'] {
        604800
    } else {
        0
    }
}

/// The seconds `rest` of a name `N-unit` stands for, when the digits of the
/// count read so far make `count`.
pub open spec fn count_seconds(rest: Seq<char>, count: int) -> int
    decreases rest.len(),
{
    if rest.len() == 0 {
        0
    } else if rest[0] == '-' {
        count * unit_seconds(rest.drop_first())
    } else {
        count_seconds(rest.drop_first(), count * 10 + (rest[0] as int - '0' as int))
    }
}

/// The seconds a configuration name `N-unit` stands for: `N` units.
pub open spec fn name_seconds(name: Seq<char>) -> int {
    count_seconds(name, 0)
}

/// Each length of time is written with the name of its own duration: the
/// name `N-unit` of a length of time stands for as many seconds as it lasts.
pub proof fn law_time_span_name_duration(t: TimeSpan)
    ensures
        name_seconds(time_span_name(t)) == time_span_seconds(t),
{
    reveal_with_fuel(count_seconds, 4);
    match t {
        TimeSpan::OneSecond => {
            reveal_strlit("1-sec");
            assert(name_seconds("1-sec"@) == 1);
        },
        TimeSpan::FiveSeconds => {
            reveal_strlit("5-sec");
            assert(name_seconds("5-sec"@) == 5);
        },
        TimeSpan::TenSeconds => {
            reveal_strlit("10-sec");
            assert(name_seconds("10-sec"@) == 10);
        },
        TimeSpan::FifteenSeconds => {
            reveal_strlit("15-sec");
            assert(name_seconds("15-sec"@) == 15);
        },
        TimeSpan::ThirtySeconds => {
            reveal_strlit("30-sec");
            assert(name_seconds("30-sec"@) == 30);
        },
        TimeSpan::OneMinute => {
            reveal_strlit("1-min");
            assert(name_seconds("1-min"@) == 60);
        },
        TimeSpan::TwoMinutes => {
            reveal_strlit("2-min");
            assert(name_seconds("2-min"@) == 120);
        },
        TimeSpan::FiveMinutes => {
            reveal_strlit("5-min");
            assert(name_seconds("5-min"@) == 300);
        },
        TimeSpan::TenMinutes => {
            reveal_strlit("10-min");
            assert(name_seconds("10-min"@) == 600);
        },
        TimeSpan::FifteenMinutes => {
            reveal_strlit("15-min");
            assert(name_seconds("15-min"@) == 900);
        },
        TimeSpan::ThirtyMinutes => {
            reveal_strlit("30-min");
            assert(name_seconds("30-min"@) == 1800);
        },
        TimeSpan::OneHour => {
            reveal_strlit("1-hr");
            assert(name_seconds("1-hr"@) == 3600);
        },
        TimeSpan::TwoHours => {
            reveal_strlit("2-hr");
            assert(name_seconds("2-hr"@) == 7200);
        },
        TimeSpan::SixHours => {
            reveal_strlit("6-hr");
            assert(name_seconds("6-hr"@) == 21600);
        },
        TimeSpan::EightHours => {
            reveal_strlit("8-hr");
            assert(name_seconds("8-hr"@) == 28800);
        },
        TimeSpan::TwelveHours => {
            reveal_strlit("12-hr");
            assert(name_seconds("12-hr"@) == 43200);
        },
        TimeSpan::OneDay => {
            reveal_strlit("1-day");
            assert(name_seconds("1-day"@) == 86400);
        },
        TimeSpan::ThreeDay => {
            reveal_strlit("3-day");
            assert(name_seconds("3-day"@) == 259200);
        },
        TimeSpan::OneWeek => {
            reveal_strlit("1-wk");
            assert(name_seconds("1-wk"@) == 604800);
        },
        TimeSpan::TwoWeeks => {
            reveal_strlit("2-wk");
            assert(name_seconds("2-wk"@) == 1209600);
        },
        TimeSpan::ThirtyDays => {
            reveal_strlit("30-day");
            assert(name_seconds("30-day"@) == 2592000);
        },
    }
}

/// Two lengths of time of different durations have different names, so a
/// name stands for one length of time only.
pub proof fn law_time_span_names_distinct(a: TimeSpan, b: TimeSpan)
    ensures
        time_span_name(a) == time_span_name(b) ==> a == b,
{
    law_time_span_name_duration(a);
    law_time_span_name_duration(b);
}

/// The name a [TimeSpan] is written with in configuration.
pub open spec fn time_span_name(t: TimeSpan) -> Seq<char> {
    match t {
        TimeSpan::OneSecond => "1-sec"@,
        TimeSpan::FiveSeconds => "5-sec"@,
        TimeSpan::TenSeconds => "10-sec"@,
        TimeSpan::FifteenSeconds => "15-sec"@,
        TimeSpan::ThirtySeconds => "30-sec"@,
        TimeSpan::OneMinute => "1-min"@,
        TimeSpan::TwoMinutes => "2-min"@,
        TimeSpan::FiveMinutes => "5-min"@,
        TimeSpan::TenMinutes => "10-min"@,
        TimeSpan::FifteenMinutes => "15-min"@,
        TimeSpan::ThirtyMinutes => "30-min"@,
        TimeSpan::OneHour => "1-hr"@,
        TimeSpan::TwoHours => "2-hr"@,
        TimeSpan::SixHours => "6-hr"@,
        TimeSpan::EightHours => "8-hr"@,
        TimeSpan::TwelveHours => "12-hr"@,
        TimeSpan::OneDay => "1-day"@,
        TimeSpan::ThreeDay => "3-day"@,
        TimeSpan::OneWeek => "1-wk"@,
        TimeSpan::TwoWeeks => "2-wk"@,
        TimeSpan::ThirtyDays => "30-day"@,
    }
}

impl TimeSpan {
    /// The name this length of time is written with in configuration.
    pub fn name(&self) -> (r: &'static str)
        ensures
            r@ == time_span_name(*self),
            name_seconds(r@) == time_span_seconds(*self),
    {
        proof {
            law_time_span_name_duration(*self);
        }
        match self {
            TimeSpan::OneSecond => "1-sec",
            TimeSpan::FiveSeconds => "5-sec",
            TimeSpan::TenSeconds => "10-sec",
            TimeSpan::FifteenSeconds => "15-sec",
            TimeSpan::ThirtySeconds => "30-sec",
            TimeSpan::OneMinute => "1-min",
            TimeSpan::TwoMinutes => "2-min",
            TimeSpan::FiveMinutes => "5-min",
            TimeSpan::TenMinutes => "10-min",
            TimeSpan::FifteenMinutes => "15-min",
            TimeSpan::ThirtyMinutes => "30-min",
            TimeSpan::OneHour => "1-hr",
            TimeSpan::TwoHours => "2-hr",
            TimeSpan::SixHours => "6-hr",
            TimeSpan::EightHours => "8-hr",
            TimeSpan::TwelveHours => "12-hr",
            TimeSpan::OneDay => "1-day",
            TimeSpan::ThreeDay => "3-day",
            TimeSpan::OneWeek => "1-wk",
            TimeSpan::TwoWeeks => "2-wk",
            TimeSpan::ThirtyDays => "30-day",
        }
    }

    /// The length of time written with `name` in configuration, if any.
    pub fn from_name(name: &str) -> (r: Option<TimeSpan>)
        ensures
            match r {
                Some(t) => time_span_name(t) == name@ && name_seconds(name@) == time_span_seconds(t),
                None => forall|t: TimeSpan| time_span_name(t) != name@,
            },
    {
        let r = Self::lookup_name(name);
        proof {
            if let Some(t) = r {
                law_time_span_name_duration(t);
            }
        }
        r
    }

    fn lookup_name(name: &str) -> (r: Option<TimeSpan>)
        ensures
            match r {
                Some(t) => time_span_name(t) == name@,
                None => forall|t: TimeSpan| time_span_name(t) != name@,
            },
    {
        if texts_equal(name, "1-sec") {
            return Some(TimeSpan::OneSecond);
        }
        if texts_equal(name, "5-sec") {
            return Some(TimeSpan::FiveSeconds);
        }
        if texts_equal(name, "10-sec") {
            return Some(TimeSpan::TenSeconds);
        }
        if texts_equal(name, "15-sec") {
            return Some(TimeSpan::FifteenSeconds);
        }
        if texts_equal(name, "30-sec") {
            return Some(TimeSpan::ThirtySeconds);
        }
        if texts_equal(name, "1-min") {
            return Some(TimeSpan::OneMinute);
        }
        if texts_equal(name, "2-min") {
            return Some(TimeSpan::TwoMinutes);
        }
        if texts_equal(name, "5-min") {
            return Some(TimeSpan::FiveMinutes);
        }
        if texts_equal(name, "10-min") {
            return Some(TimeSpan::TenMinutes);
        }
        if texts_equal(name, "15-min") {
            return Some(TimeSpan::FifteenMinutes);
        }
        if texts_equal(name, "30-min") {
            return Some(TimeSpan::ThirtyMinutes);
        }
        if texts_equal(name, "1-hr") {
            return Some(TimeSpan::OneHour);
        }
        if texts_equal(name, "2-hr") {
            return Some(TimeSpan::TwoHours);
        }
        if texts_equal(name, "6-hr") {
            return Some(TimeSpan::SixHours);
        }
        if texts_equal(name, "8-hr") {
            return Some(TimeSpan::EightHours);
        }
        if texts_equal(name, "12-hr") {
            return Some(TimeSpan::TwelveHours);
        }
        if texts_equal(name, "1-day") {
            return Some(TimeSpan::OneDay);
        }
        if texts_equal(name, "3-day") {
            return Some(TimeSpan::ThreeDay);
        }
        if texts_equal(name, "1-wk") {
            return Some(TimeSpan::OneWeek);
        }
        if texts_equal(name, "2-wk") {
            return Some(TimeSpan::TwoWeeks);
        }
        if texts_equal(name, "30-day") {
            return Some(TimeSpan::ThirtyDays);
        }
        None
    }
}

/// The most verbose level of log messages that is written.
#[derive(Debug, Clone, Copy, PartialEq, Eq, Structural)]
pub enum LogLevel {
    Trace,
    Debug,
    Info,
    Warn,
    Error,
}

/// How logs are written to stdio.
#[derive(Debug, Clone, Copy, PartialEq, Eq, Structural)]
pub enum StdioLogMode {
    Standard,
    Json,
    Off,
}

/// Logging configuration.
#[derive(Debug)]
pub struct LogConfig {
    /// The most verbose level written.
    pub level: LogLevel,
    /// How logs are written to stdio.
    pub stdio: StdioLogMode,
    /// Multi-line logs.
    pub pretty: bool,
    /// Include the source location.
    pub location: bool,
    /// Colored output.
    pub ansi: bool,
    /// Include timestamps.
    pub timestamps: bool,
    /// OpenTelemetry collector endpoint, empty for none.
    pub otlp_endpoint: String,
    /// OpenTelemetry service name.
    pub opentelemetry_service_name: String,
    /// OpenTelemetry scope name.
    pub opentelemetry_scope_name: String,
}

impl Default for LogConfig {
    fn default() -> (r: Self)
        ensures
            r.level == LogLevel::Info,
            r.stdio == StdioLogMode::Standard,
            !r.pretty,
            !r.location,
            !r.ansi,
            !r.timestamps,
            r.otlp_endpoint@ == Seq::<char>::empty(),
            r.opentelemetry_service_name@ == Seq::<char>::empty(),
            r.opentelemetry_scope_name@ == Seq::<char>::empty(),
    {
        LogConfig {
            level: LogLevel::Info,
            stdio: StdioLogMode::Standard,
            pretty: false,
            location: false,
            ansi: false,
            timestamps: false,
            otlp_endpoint: String::new(),
            opentelemetry_service_name: String::new(),
            opentelemetry_scope_name: String::new(),
        }
    }
}

impl LogConfig {
    /// A copy of this configuration.
    pub fn duplicate(&self) -> (r: Self)
        ensures
            r == *self,
    {
        LogConfig {
            level: self.level,
            stdio: self.stdio,
            pretty: self.pretty,
            location: self.location,
            ansi: self.ansi,
            timestamps: self.timestamps,
            otlp_endpoint: self.otlp_endpoint.clone(),
            opentelemetry_service_name: self.opentelemetry_service_name.clone(),
            opentelemetry_scope_name: self.opentelemetry_scope_name.clone(),
        }
    }
}

/// Database connection configuration.
#[derive(Debug)]
pub struct DatabaseConfig {
    /// Full connection uri. When given, it is used in place of the parts below.
    pub uri: String,
    /// Address of the database, `host:port`.
    pub address: String,
    /// Username.
    pub username: String,
    /// Password.
    pub password: String,
    /// Application name reported to the database.
    pub app_name: String,
    /// Name of the database.
    pub db_name: String,
}

impl Default for DatabaseConfig {
    fn default() -> (r: Self)
        ensures
            r.uri@ == Seq::<char>::empty(),
            r.address@ == "localhost:27017"@,
            r.username@ == Seq::<char>::empty(),
            r.password@ == Seq::<char>::empty(),
            r.app_name@ == "komodo_core"@,
            r.db_name@ == "komodo"@,
    {
        DatabaseConfig {
            uri: String::new(),
            address: "localhost:27017".to_string(),
            username: String::new(),
            password: String::new(),
            app_name: "komodo_core".to_string(),
            db_name: "komodo".to_string(),
        }
    }
}

impl DatabaseConfig {
    /// The configuration with the uri, username and password hidden.
    pub fn sanitized(&self) -> (r: DatabaseConfig)
        ensures
            r.uri@ == spec_empty_or_redacted(self.uri@),
            r.address == self.address,
            r.username@ == spec_empty_or_redacted(self.username@),
            r.password@ == spec_empty_or_redacted(self.password@),
            r.app_name == self.app_name,
            r.db_name == self.db_name,
    {
        DatabaseConfig {
            uri: empty_or_redacted(self.uri.as_str()),
            address: self.address.clone(),
            username: empty_or_redacted(self.username.as_str()),
            password: empty_or_redacted(self.password.as_str()),
            app_name: self.app_name.clone(),
            db_name: self.db_name.clone(),
        }
    }
}

/// Configuration of a login provider known by name (google, github).
#[derive(Debug)]
pub struct NamedOauthConfig {
    /// Whether login with the provider is enabled.
    pub enabled: bool,
    /// The client id.
    pub client_id: String,
    /// The client secret.
    pub client_secret: String,
}

impl Default for NamedOauthConfig {
    fn default() -> (r: Self)
        ensures
            !r.enabled,
            r.client_id@ == Seq::<char>::empty(),
            r.client_secret@ == Seq::<char>::empty(),
    {
        NamedOauthConfig { enabled: false, client_id: String::new(), client_secret: String::new() }
    }
}

impl NamedOauthConfig {
    /// The configuration with the client id and secret hidden.
    pub fn sanitized(&self) -> (r: NamedOauthConfig)
        ensures
            r.enabled == self.enabled,
            r.client_id@ == spec_empty_or_redacted(self.client_id@),
            r.client_secret@ == spec_empty_or_redacted(self.client_secret@),
    {
        NamedOauthConfig {
            enabled: self.enabled,
            client_id: empty_or_redacted(self.client_id.as_str()),
            client_secret: empty_or_redacted(self.client_secret.as_str()),
        }
    }
}

/// A resource a read request can be aimed at.
#[derive(Debug, Clone)]
pub enum ResourceTarget {
    System(String),
    Swarm(String),
    Server(String),
    Stack(String),
    Deployment(String),
    Build(String),
    Repo(String),
    Procedure(String),
    Action(String),
    Builder(String),
    Alerter(String),
    ResourceSync(String),
}

/// A builder that runs builds on a configured server.
#[derive(Debug)]
pub struct ServerBuilderConfig {
    /// The id of the server.
    pub server_id: String,
}

/// A builder that launches an AWS instance for each build.
#[derive(Debug)]
pub struct AwsBuilderConfig {
    /// Names of the secrets available on the instance.
    pub secrets: Vec<String>,
    /// Git providers available on the instance.
    pub git_providers: Vec<crate::providers::GitProvider>,
    /// Docker registries available on the instance.
    pub docker_registries: Vec<crate::providers::DockerRegistry>,
}

/// How a builder reaches the machine that builds.
#[derive(Debug)]
pub enum BuilderConfig {
    /// A periphery agent at a url.
    Url(String),
    /// A configured server.
    Server(ServerBuilderConfig),
    /// An AWS instance.
    Aws(AwsBuilderConfig),
}

} // verus!
