use vstd::prelude::*;

verus! {

/// How the printer is reached.
#[derive(Debug, Clone, Copy, PartialEq, Eq, Structural)]
pub enum PrintMethod {
    Network,
    Usb,
}

/// The whole configuration of the program.
#[derive(Debug, Clone, PartialEq)]
pub struct AppConfig {
    pub printer: PrinterConfig,
    pub server: ServerConfig,
}

/// Where the receipt printer is.
#[derive(Debug, Clone, PartialEq)]
pub struct PrinterConfig {
    pub host: Option<String>,
    pub port: Option<u16>,
    pub usb_path: Option<String>,
    pub print_method: Option<PrintMethod>,
}

/// Where the web server listens and how it names itself to Scryfall.
#[derive(Debug, Clone, PartialEq)]
pub struct ServerConfig {
    pub host: String,
    pub port: i32,
    pub scryfall_user_agent: String,
    pub cache_dir: Option<String>,
}

/// The server settings that hold where the configuration file names none:
/// listen on every address at port 8080 and name the program to Scryfall as
/// `momir_basic_rs/v0.1`.
pub fn default_server_config() -> (c: ServerConfig)
    ensures
        c.host@ == "0.0.0.0"@,
        c.port == 8080,
        c.scryfall_user_agent@ == "momir_basic_rs/v0.1"@,
        c.cache_dir is None,
{
    ServerConfig {
        host: String::from_str("0.0.0.0"),
        port: 8080,
        scryfall_user_agent: String::from_str("momir_basic_rs/v0.1"),
        cache_dir: None,
    }
}

} // verus!
