use vstd::prelude::*;

use crate::cards::{type_has_word, CardLayout, OracleScryfallCard};
use crate::config::AppConfig;

verus! {

/// Why a card could not be printed: its image could not be drawn, or the
/// printer would not take it.
#[derive(Debug, Clone)]
pub enum PrinterError {
    Render(String),
    Print(String),
}

/// The text that describes a printer error.
pub open spec fn printer_error_text(e: PrinterError) -> Seq<char> {
    match e {
        PrinterError::Render(m) => "Failed to render card: "@ + m@,
        PrinterError::Print(m) => "Failed to print card: "@ + m@,
    }
}

impl PrinterError {
    /// The text that describes the error.
    pub fn message(&self) -> (s: String)
        ensures
            s@ == printer_error_text(*self),
    {
        match self {
            PrinterError::Render(m) => {
                let mut s = String::from_str("Failed to render card: ");
                s.append(m.as_str());
                s
            },
            PrinterError::Print(m) => {
                let mut s = String::from_str("Failed to print card: ");
                s.append(m.as_str());
                s
            },
        }
    }
}

/// A receipt printer reached over the network.
#[derive(Debug, Clone)]
pub struct OracleNetworkPrinter {
    host: String,
    port: u16,
}

impl OracleNetworkPrinter {
    /// The host name or address of the printer.
    pub closed spec fn host_name(&self) -> Seq<char> {
        self.host@
    }

    /// The port the printer listens on.
    pub closed spec fn port_number(&self) -> u16 {
        self.port
    }

    /// A printer at `host` and `port`.
    pub fn new(host: String, port: u16) -> (p: Self)
        ensures
            p.host_name() == host@,
            p.port_number() == port,
    {
        OracleNetworkPrinter { host, port }
    }

    /// The network printer that `config` names: present when the
    /// configuration gives both a host and a port.
    pub fn from_config(config: &AppConfig) -> (p: Option<Self>)
        ensures
            p is Some <==> (config.printer.host is Some && config.printer.port is Some),
            p matches Some(q) ==> q.host_name() == config.printer.host->0@
                && q.port_number() == config.printer.port->0,
    {
        match (&config.printer.host, config.printer.port) {
            (Some(host), Some(port)) => Some(OracleNetworkPrinter { host: host.clone(), port }),
            _ => None,
        }
    }

    /// The host name or address of the printer.
    pub fn host(&self) -> (h: &str)
        ensures
            h@ == self.host_name(),
    {
        self.host.as_str()
    }

    /// The port the printer listens on.
    pub fn port(&self) -> (n: u16)
        ensures
            n == self.port_number(),
    {
        self.port
    }
}

/// Whether something exists at `path` on the file system
/// (`std::path::Path::exists`). Nothing is stated: the answer depends on
/// the machine.
#[verifier::external_body]
fn path_exists(path: &str) -> (b: bool) {
    std::path::Path::new(path).exists()
}

/// A receipt printer attached as a device file.
#[derive(Debug, Clone)]
pub struct OracleUsbPrinter {
    path: String,
}

impl OracleUsbPrinter {
    /// The device path of the printer.
    pub closed spec fn device_path(&self) -> Seq<char> {
        self.path@
    }

    /// A printer at the device `path`.
    pub fn new(path: String) -> (p: Self)
        ensures
            p.device_path() == path@,
    {
        OracleUsbPrinter { path }
    }

    /// The device printer that `config` names: present when the
    /// configuration gives a device path.
    pub fn from_config(config: &AppConfig) -> (p: Option<Self>)
        ensures
            p is Some <==> config.printer.usb_path is Some,
            p matches Some(q) ==> q.device_path() == config.printer.usb_path->0@,
    {
        match &config.printer.usb_path {
            Some(path) => Some(OracleUsbPrinter { path: path.clone() }),
            None => None,
        }
    }

    /// The device path of the printer.
    pub fn path(&self) -> (s: &str)
        ensures
            s@ == self.device_path(),
    {
        self.path.as_str()
    }

    /// Whether the device file is there. What comes back depends on the
    /// machine; the path asked about is the printer's own.
    pub fn check_connection(&self) -> (b: bool) {
        path_exists(self.path.as_str())
    }
}

/// How a card is laid out on paper.
#[derive(Debug, Clone)]
pub enum CardType {
    Regular(OracleScryfallCard),
    MDFC(OracleScryfallCard),
    Adventure(OracleScryfallCard),
    Omen(OracleScryfallCard),
    Prepare(OracleScryfallCard),
}

/// The way a card is drawn: an Omen (a card with the word `Omen` in its
/// type line) like an adventure; modal double-faced, transforming and split
/// cards with their two faces side by side; adventures and prepare cards
/// with the second face's text beside the first; every other card as a
/// single face.
pub open spec fn card_type_of(card: OracleScryfallCard) -> CardType {
    if type_has_word(card.core.type_line, "Omen"@) {
        CardType::Omen(card)
    } else {
        match card.core.layout {
            CardLayout::ModalDFC => CardType::MDFC(card),
            CardLayout::Adventure => CardType::Adventure(card),
            CardLayout::Prepare => CardType::Prepare(card),
            CardLayout::Transform => CardType::MDFC(card),
            CardLayout::Split => CardType::MDFC(card),
            _ => CardType::Regular(card),
        }
    }
}

impl CardType {
    /// Decides how `card` is drawn.
    pub fn of(card: OracleScryfallCard) -> (t: CardType)
        ensures
            t == card_type_of(card),
    {
        if card.is_omen() {
            CardType::Omen(card)
        } else {
            match card.core.layout {
                CardLayout::ModalDFC => CardType::MDFC(card),
                CardLayout::Adventure => CardType::Adventure(card),
                CardLayout::Prepare => CardType::Prepare(card),
                CardLayout::Transform => CardType::MDFC(card),
                CardLayout::Split => CardType::MDFC(card),
                _ => CardType::Regular(card),
            }
        }
    }
}

} // verus!
