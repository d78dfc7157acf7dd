//! The settings file: its fields, its defaults, and the text of a fresh one.

use vstd::prelude::*;

verus! {

/// The port of the daemon's TCP server where no file says otherwise.
pub const DEFAULT_PORT: u16 = 5829;

/// The settings as the file holds them.
#[derive(Debug, PartialEq, Eq)]
pub struct Config {
    /// Port that the daemon's TCP server is listening on.
    pub port: u16,
    /// Path to the script to execute on layer change; may begin with the
    /// home-directory shorthand.
    pub script_path: String,
    /// Log level: "info", "debug", or "trace".
    pub log_level: String,
}

/// The mathematical content of a [`Config`].
pub struct ConfigView {
    pub port: u16,
    pub script_path: Seq<char>,
    pub log_level: Seq<char>,
}

impl View for Config {
    type V = ConfigView;

    open spec fn view(&self) -> ConfigView {
        ConfigView {
            port: self.port,
            script_path: self.script_path@,
            log_level: self.log_level@,
        }
    }
}

/// The log level of a file that names none.
pub fn default_log_level() -> (level: String)
    ensures
        level@ == "info"@,
{
    String::from_str("info")
}

/// The settings of a fresh installation.
pub open spec fn default_settings() -> ConfigView {
    ConfigView {
        port: DEFAULT_PORT,
        script_path: "~/.config/kanata-observer/layer_change.sh"@,
        log_level: "info"@,
    }
}

/// The settings of a fresh installation.
pub fn default_config() -> (config: Config)
    ensures
        config@ == default_settings(),
{
    Config {
        port: DEFAULT_PORT,
        script_path: String::from_str("~/.config/kanata-observer/layer_change.sh"),
        log_level: default_log_level(),
    }
}

/// The decimal digit for a number below ten.
pub open spec fn digit(value: nat) -> char {
    if value == 0 {
        '0'
    } else if value == 1 {
        '1'
    } else if value == 2 {
        '2'
    } else if value == 3 {
        '3'
    } else if value == 4 {
        '4'
    } else if value == 5 {
        '5'
    } else if value == 6 {
        '6'
    } else if value == 7 {
        '7'
    } else if value == 8 {
        '8'
    } else {
        '9'
    }
}

/// A number in decimal, without sign or leading zeros.
pub open spec fn decimal(value: nat) -> Seq<char>
    decreases value,
{
    if value < 10 {
        seq![digit(value)]
    } else {
        decimal(value / 10).push(digit(value % 10))
    }
}

/// The text of a settings file that holds `config`: each field on a line of
/// its own under a comment that explains it. The two texts are written
/// between double quotes as they are.
pub open spec fn config_text(config: ConfigView) -> Seq<char> {
    "# Kanata TCP Client Configuration\n\n# Port that kanata's TCP server is listening on\nport = "@
        + decimal(config.port as nat)
        + "\n\n# Path to the script to execute on layer change\n# The layer name will be passed as the first argument\nscript_path = \""@
        + config.script_path
        + "\"\n\n# Log level: \"info\", \"debug\", or \"trace\"\nlog_level = \""@
        + config.log_level + "\"\n"@
}

fn digit_text(value: u16) -> (text: &'static str)
    requires
        value < 10,
    ensures
        text@ == seq![digit(value as nat)],
{
    proof {
        reveal_strlit("0");
        reveal_strlit("1");
        reveal_strlit("2");
        reveal_strlit("3");
        reveal_strlit("4");
        reveal_strlit("5");
        reveal_strlit("6");
        reveal_strlit("7");
        reveal_strlit("8");
        reveal_strlit("9");
    }
    let text = if value == 0 {
        "0"
    } else if value == 1 {
        "1"
    } else if value == 2 {
        "2"
    } else if value == 3 {
        "3"
    } else if value == 4 {
        "4"
    } else if value == 5 {
        "5"
    } else if value == 6 {
        "6"
    } else if value == 7 {
        "7"
    } else if value == 8 {
        "8"
    } else {
        "9"
    };
    assert(text@ =~= seq![digit(value as nat)]);
    text
}

/// Writes a port number in decimal.
pub fn port_text(port: u16) -> (text: String)
    ensures
        text@ == decimal(port as nat),
    decreases port,
{
    if port < 10 {
        String::from_str(digit_text(port))
    } else {
        let text = port_text(port / 10).concat(digit_text(port % 10));
        assert(text@ =~= decimal(port as nat));
        text
    }
}

/// Writes the settings file for `config`.
pub fn render_config(config: &Config) -> (text: String)
    ensures
        text@ == config_text(config@),
{
    let port = port_text(config.port);
    String::from_str(
        "# Kanata TCP Client Configuration\n\n# Port that kanata's TCP server is listening on\nport = ",
    ).concat(port.as_str()).concat(
        "\n\n# Path to the script to execute on layer change\n# The layer name will be passed as the first argument\nscript_path = \"",
    ).concat(config.script_path.as_str()).concat(
        "\"\n\n# Log level: \"info\", \"debug\", or \"trace\"\nlog_level = \"",
    ).concat(config.log_level.as_str()).concat("\"\n")
}

} // verus!
