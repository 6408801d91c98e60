//! The texts of the supervisor: the address of the service, the environment
//! of its launch, and the messages that go with errors and progress.

use crate::machine::{Diagnostic, LaunchRequest, SupervisorError, SurfaceRequest};
use vstd::prelude::*;
use vstd::string::StringExecFns;

verus! {

/// The character of a decimal digit.
pub open spec fn digit_char(digit: nat) -> char {
    if digit == 0 {
        '0'
    } else if digit == 1 {
        '1'
    } else if digit == 2 {
        '2'
    } else if digit == 3 {
        '3'
    } else if digit == 4 {
        '4'
    } else if digit == 5 {
        '5'
    } else if digit == 6 {
        '6'
    } else if digit == 7 {
        '7'
    } else if digit == 8 {
        '8'
    } else {
        '9'
    }
}

/// The decimal numeral of `n`, without sign or leading zeros.
pub open spec fn decimal(n: nat) -> Seq<char>
    decreases n,
{
    if n < 10 {
        seq![digit_char(n)]
    } else {
        decimal(n / 10).push(digit_char(n % 10))
    }
}

/// The one-character text of a decimal digit.
fn digit_text(digit: u64) -> (text: &'static str)
    requires
        digit < 10,
    ensures
        text@ == seq![digit_char(digit as nat)],
{
    proof {
        reveal_strlit("0");
        reveal_strlit("1");
        reveal_strlit("2");
        reveal_strlit("3");
        reveal_strlit("4");
        reveal_strlit("5");
        reveal_strlit("6");
        reveal_strlit("7");
        reveal_strlit("8");
        reveal_strlit("9");
    }
    let text = if digit == 0 {
        "0"
    } else if digit == 1 {
        "1"
    } else if digit == 2 {
        "2"
    } else if digit == 3 {
        "3"
    } else if digit == 4 {
        "4"
    } else if digit == 5 {
        "5"
    } else if digit == 6 {
        "6"
    } else if digit == 7 {
        "7"
    } else if digit == 8 {
        "8"
    } else {
        "9"
    };
    assert(text@ =~= seq![digit_char(digit as nat)]);
    text
}

/// Appends the decimal numeral of `n` to `text`.
pub fn append_decimal(text: &mut String, n: u64)
    ensures
        final(text)@ == old(text)@ + decimal(n as nat),
    decreases n,
{
    if n >= 10 {
        append_decimal(text, n / 10);
    }
    text.append(digit_text(n % 10));
    assert(text@ =~= old(text)@ + decimal(n as nat));
}

/// The address of a service on the local port `port`: plain HTTP, no path.
pub open spec fn service_address(port: u16) -> Seq<char> {
    "http://localhost:"@ + decimal(port as nat)
}

/// Renders the address at which the service on local port `port` is probed
/// and shown.
pub fn service_url(port: u16) -> (url: String)
    ensures
        url@ == service_address(port),
{
    let mut url = String::from_str("http://localhost:");
    append_decimal(&mut url, port as u64);
    url
}

/// One assignment in the environment of the child service.
#[derive(Debug, PartialEq, Eq)]
pub struct EnvVar {
    pub name: String,
    pub value: String,
}

impl View for EnvVar {
    type V = (Seq<char>, Seq<char>);

    open spec fn view(&self) -> (Seq<char>, Seq<char>) {
        (self.name@, self.value@)
    }
}

/// The environment that a service on port `port` is launched with: the port
/// to listen on, the runtime mode, and the tag that names this supervisor as
/// the origin of the launch.
pub open spec fn launch_environment(port: u16) -> Seq<(Seq<char>, Seq<char>)> {
    seq![
        ("PORT"@, decimal(port as nat)),
        ("MIX_ENV"@, "prod"@),
        ("BURRITO_TARGET"@, "tauri"@),
    ]
}

impl LaunchRequest {
    /// The name under which the host knows the service binary.
    pub fn service_name(&self) -> (name: &'static str)
        ensures
            name@ == "jido_code_backend"@,
    {
        "jido_code_backend"
    }

    /// The environment variable assignments of the launch, in order.
    pub fn environment(&self) -> (env: Vec<EnvVar>)
        ensures
            env@.len() == 3,
            forall|i: int| 0 <= i < 3 ==> (#[trigger] env@[i])@ == launch_environment(self.port)[i],
    {
        let mut port = String::new();
        append_decimal(&mut port, self.port as u64);
        assert(port@ =~= decimal(self.port as nat));
        let mut env: Vec<EnvVar> = Vec::new();
        env.push(EnvVar { name: String::from_str("PORT"), value: port });
        env.push(EnvVar { name: String::from_str("MIX_ENV"), value: String::from_str("prod") });
        env.push(
            EnvVar { name: String::from_str("BURRITO_TARGET"), value: String::from_str("tauri") },
        );
        env
    }
}

impl SurfaceRequest {
    /// The label by which the host identifies the surface.
    pub fn label(&self) -> (label: &'static str)
        ensures
            label@ == "main"@,
    {
        "main"
    }

    /// The title that the surface shows.
    pub fn title(&self) -> (title: &'static str)
        ensures
            title@ == "Jido Code"@,
    {
        "Jido Code"
    }

    /// The address that the surface shows: that of the service on the
    /// request's port.
    pub fn url(&self) -> (url: String)
        ensures
            url@ == service_address(self.port),
    {
        service_url(self.port)
    }
}

impl SupervisorError {
    /// The text of this error. A timeout names the number of attempts that
    /// were allowed.
    pub open spec fn text(self) -> Seq<char> {
        match self {
            SupervisorError::LaunchFailure => "Backend process could not be started"@,
            SupervisorError::ReadinessTimeout { max_attempts } => "Backend failed to start after "@
                + decimal(max_attempts as nat) + " attempts"@,
            SupervisorError::SurfaceCreationFailure => "Main window could not be created"@,
        }
    }

    /// Renders this error for the user.
    pub fn message(&self) -> (message: String)
        ensures
            message@ == self.text(),
    {
        match self {
            SupervisorError::LaunchFailure => String::from_str(
                "Backend process could not be started",
            ),
            SupervisorError::ReadinessTimeout { max_attempts } => {
                let mut message = String::from_str("Backend failed to start after ");
                append_decimal(&mut message, *max_attempts as u64);
                message.append(" attempts");
                message
            },
            SupervisorError::SurfaceCreationFailure => String::from_str(
                "Main window could not be created",
            ),
        }
    }

    /// The text of this error together with the cause that the host found. A
    /// launch or a surface creation fails for a cause of the host's; a timeout
    /// has none beyond the attempts it names.
    pub open spec fn text_with_cause(self, cause: Seq<char>) -> Seq<char> {
        match self {
            SupervisorError::ReadinessTimeout { .. } => self.text(),
            _ => self.text() + ": "@ + cause,
        }
    }

    /// Renders this error for the user, with the cause that the host found.
    pub fn message_with_cause(&self, cause: &str) -> (message: String)
        ensures
            message@ == self.text_with_cause(cause@),
    {
        let mut message = self.message();
        match self {
            SupervisorError::ReadinessTimeout { .. } => {},
            _ => {
                message.append(": ");
                message.append(cause);
            },
        }
        message
    }
}

impl Diagnostic {
    /// The text of this progress message.
    pub open spec fn text(self) -> Seq<char> {
        match self {
            Diagnostic::Starting => "Starting Jido Code backend..."@,
            Diagnostic::Launched => "Backend process started, waiting for it to be ready..."@,
            Diagnostic::UnhealthyResponse { status, attempt } => "Backend responded with status: "@
                + decimal(status as nat) + " (attempt "@ + decimal(attempt as nat) + ")"@,
            Diagnostic::Waiting { attempt, max_attempts } => "Waiting for backend... (attempt "@
                + decimal(attempt as nat) + "/"@ + decimal(max_attempts as nat) + ")"@,
            Diagnostic::Ready { attempts } => "Backend is ready after "@ + decimal(attempts as nat)
                + " attempts!"@,
            Diagnostic::SurfaceOpened => "Main window opened successfully"@,
        }
    }

    /// Renders this progress message as one line.
    pub fn message(&self) -> (message: String)
        ensures
            message@ == self.text(),
    {
        match self {
            Diagnostic::Starting => String::from_str("Starting Jido Code backend..."),
            Diagnostic::Launched => String::from_str(
                "Backend process started, waiting for it to be ready...",
            ),
            Diagnostic::UnhealthyResponse { status, attempt } => {
                let mut message = String::from_str("Backend responded with status: ");
                append_decimal(&mut message, *status as u64);
                message.append(" (attempt ");
                append_decimal(&mut message, *attempt as u64);
                message.append(")");
                message
            },
            Diagnostic::Waiting { attempt, max_attempts } => {
                let mut message = String::from_str("Waiting for backend... (attempt ");
                append_decimal(&mut message, *attempt as u64);
                message.append("/");
                append_decimal(&mut message, *max_attempts as u64);
                message.append(")");
                message
            },
            Diagnostic::Ready { attempts } => {
                let mut message = String::from_str("Backend is ready after ");
                append_decimal(&mut message, *attempts as u64);
                message.append(" attempts!");
                message
            },
            Diagnostic::SurfaceOpened => String::from_str("Main window opened successfully"),
        }
    }

    /// The text of this progress message together with the cause of the
    /// transport failure that it reports. Only a waiting message has one.
    pub open spec fn text_with_cause(self, cause: Seq<char>) -> Seq<char> {
        match self {
            Diagnostic::Waiting { .. } => self.text() + ": "@ + cause,
            _ => self.text(),
        }
    }

    /// Renders this progress message as one line, with the cause of the
    /// transport failure where the message reports one.
    pub fn message_with_cause(&self, cause: &str) -> (message: String)
        ensures
            message@ == self.text_with_cause(cause@),
    {
        let mut message = self.message();
        match self {
            Diagnostic::Waiting { .. } => {
                message.append(": ");
                message.append(cause);
            },
            _ => {},
        }
        message
    }
}


} // verus!
