//! The configuration of the service: where it listens, where the pictures
//! lie, and what it advertises.
//!
//! A configuration is read from a JSON document and written back as one. It
//! is loaded once and handed on by reference; nothing here is global.

use vstd::prelude::*;
use crate::json::{
    as_bool, as_fields, as_items, as_text, as_u64, describe_json_error, json_bool, json_document,
    json_fields, json_items, json_member, json_text, json_u64, member, parse_document,
};
use crate::text::{append_decimal, decimal_text, has_prefix};

verus! {

/// The message for an address that is there but is no list of four numbers
/// up to 255.
pub const IP_ITEMS: &'static str = "Cannot parse IP from configuration file.";

/// The message for a document without a list under `ip`.
pub const IP_MISSING: &'static str = "Cannot parse IP from Configuration file.";

/// The message for a document without a number up to 65535 under `port`.
pub const PORT_MISSING: &'static str = "Cannot parse Port in Configuration file.";

/// The message for a document without a truth value under `ssl.enabled`.
pub const SSL_ENABLED_MISSING: &'static str = "Cannot parse SSL enabled in Config file.";

/// The message for a document without text under `ssl.key`.
pub const SSL_KEY_MISSING: &'static str = "Cannot parse path to SSL Key in Config File.";

/// The message for a document without text under `ssl.cert`.
pub const SSL_CERT_MISSING: &'static str = "Cannot parse path to SSL Certificate in Config File.";

/// The message for a document without text under `image_path`.
pub const IMAGE_PATH_MISSING: &'static str =
    "Cannot parse path to Image folder in Configuration file.";

/// The message for a document without a number up to 100 under
/// `jpg_quality`.
pub const JPG_QUALITY_MISSING: &'static str = "Cannot parse JPG Quality in Configuration file.";

/// The message for a document without text under `base_address`.
pub const BASE_ADDRESS_MISSING: &'static str = "Cannot parse base_address in Configuration file.";

/// The message for a document without a number under `max_area`.
pub const MAX_AREA_MISSING: &'static str = "Cannot parse max_area in Configuration file.";

/// How the message for text that is no JSON object begins.
pub const DOCUMENT_REFUSED: &'static str = "Cannot parse config file --- ";

/// The configuration of the service.
#[derive(Debug)]
pub struct Config {
    pub ip: (u8, u8, u8, u8),
    pub port: u64,
    pub ssl_enabled: bool,
    pub ssl_key: String,
    pub ssl_cert: String,
    pub image_path: String,
    pub jpg_quality: u8,
    pub base_address: String,
    pub max_area: u64,
}

/// What a configuration holds.
pub struct Settings {
    pub ip: (u8, u8, u8, u8),
    pub port: u64,
    pub ssl_enabled: bool,
    pub ssl_key: Seq<char>,
    pub ssl_cert: Seq<char>,
    pub image_path: Seq<char>,
    pub jpg_quality: u8,
    pub base_address: Seq<char>,
    pub max_area: u64,
}

impl Settings {
    /// Whether the settings are within their bounds: the port is at most
    /// 65535 and the JPEG quality at most 100.
    pub open spec fn in_bounds(self) -> bool {
        self.port <= PORT_MAX && self.jpg_quality <= QUALITY_MAX
    }
}

impl View for Config {
    type V = Settings;

    open spec fn view(&self) -> Settings {
        Settings {
            ip: self.ip,
            port: self.port,
            ssl_enabled: self.ssl_enabled,
            ssl_key: self.ssl_key@,
            ssl_cert: self.ssl_cert@,
            image_path: self.image_path@,
            jpg_quality: self.jpg_quality,
            base_address: self.base_address@,
            max_area: self.max_area,
        }
    }
}

/// The number under `key`, if the document holds one there.
pub open spec fn number_at(doc: serde_json::Map<String, serde_json::Value>, key: Seq<char>) -> Option<
    u64,
> {
    match json_member(doc, key) {
        Some(v) => json_u64(v),
        None => None,
    }
}

/// The text under `key`, if the document holds text there.
pub open spec fn text_at(doc: serde_json::Map<String, serde_json::Value>, key: Seq<char>) -> Option<
    Seq<char>,
> {
    match json_member(doc, key) {
        Some(v) => json_text(v),
        None => None,
    }
}

/// The object under `ssl`, if the document holds one there.
pub open spec fn ssl_of(doc: serde_json::Map<String, serde_json::Value>) -> Option<
    serde_json::Map<String, serde_json::Value>,
> {
    match json_member(doc, "ssl"@) {
        Some(v) => json_fields(v),
        None => None,
    }
}

/// The largest port.
pub const PORT_MAX: u64 = 65_535;

/// The best JPEG quality.
pub const QUALITY_MAX: u64 = 100;

/// The number under `key`, if the document holds one there that is at most
/// `most`.
pub open spec fn bounded_at(
    doc: serde_json::Map<String, serde_json::Value>,
    key: Seq<char>,
    most: u64,
) -> Option<u64> {
    match number_at(doc, key) {
        Some(n) => if n <= most {
            Some(n)
        } else {
            None
        },
        None => None,
    }
}

/// The address that a list of numbers writes: its first four items, each at
/// most 255. A list of fewer than four items writes none, nor does one with
/// an item among the first four that is no unsigned number or is above 255.
pub open spec fn address_of(numbers: Seq<Option<u64>>) -> Result<(u8, u8, u8, u8), Seq<char>> {
    if numbers.len() >= 4 && numbers[0] is Some && numbers[1] is Some && numbers[2] is Some
        && numbers[3] is Some && numbers[0]->0 <= 255 && numbers[1]->0 <= 255 && numbers[2]->0
        <= 255 && numbers[3]->0 <= 255 {
        Ok(
            (
                numbers[0]->0 as u8,
                numbers[1]->0 as u8,
                numbers[2]->0 as u8,
                numbers[3]->0 as u8,
            ),
        )
    } else {
        Err(IP_ITEMS@)
    }
}

/// The items of a list, each as the unsigned number that it is, if it is
/// one.
pub open spec fn numbers_of(items: Seq<serde_json::Value>) -> Seq<Option<u64>> {
    Seq::new(items.len(), |i: int| json_u64(items[i]))
}

/// The address under `ip`, which must hold a list of numbers.
pub open spec fn ip_of(doc: serde_json::Map<String, serde_json::Value>) -> Result<
    (u8, u8, u8, u8),
    Seq<char>,
> {
    match json_member(doc, "ip"@) {
        None => Err(IP_MISSING@),
        Some(v) => match json_items(v) {
            None => Err(IP_MISSING@),
            Some(items) => address_of(numbers_of(items)),
        },
    }
}

/// The truth value under `ssl.enabled`.
pub open spec fn ssl_enabled_of(doc: serde_json::Map<String, serde_json::Value>) -> Option<bool> {
    match ssl_of(doc) {
        Some(ssl) => match json_member(ssl, "enabled"@) {
            Some(v) => json_bool(v),
            None => None,
        },
        None => None,
    }
}

/// The text under `ssl` and then `key`.
pub open spec fn ssl_text_of(doc: serde_json::Map<String, serde_json::Value>, key: Seq<char>) -> Option<
    Seq<char>,
> {
    match ssl_of(doc) {
        Some(ssl) => text_at(ssl, key),
        None => None,
    }
}

/// The configuration that a document holds, or the message for the first
/// setting that is missing or out of its bounds, in the order port, address,
/// the three settings of `ssl`, picture directory, JPEG quality, base
/// address, largest area.
pub open spec fn settings_of(doc: serde_json::Map<String, serde_json::Value>) -> Result<
    Settings,
    Seq<char>,
> {
    if bounded_at(doc, "port"@, PORT_MAX) is None {
        Err(PORT_MISSING@)
    } else if ip_of(doc) is Err {
        Err(ip_of(doc)->Err_0)
    } else if ssl_enabled_of(doc) is None {
        Err(SSL_ENABLED_MISSING@)
    } else if ssl_text_of(doc, "key"@) is None {
        Err(SSL_KEY_MISSING@)
    } else if ssl_text_of(doc, "cert"@) is None {
        Err(SSL_CERT_MISSING@)
    } else if text_at(doc, "image_path"@) is None {
        Err(IMAGE_PATH_MISSING@)
    } else if bounded_at(doc, "jpg_quality"@, QUALITY_MAX) is None {
        Err(JPG_QUALITY_MISSING@)
    } else if text_at(doc, "base_address"@) is None {
        Err(BASE_ADDRESS_MISSING@)
    } else if number_at(doc, "max_area"@) is None {
        Err(MAX_AREA_MISSING@)
    } else {
        Ok(
            Settings {
                ip: ip_of(doc)->Ok_0,
                port: number_at(doc, "port"@)->0,
                ssl_enabled: ssl_enabled_of(doc)->0,
                ssl_key: ssl_text_of(doc, "key"@)->0,
                ssl_cert: ssl_text_of(doc, "cert"@)->0,
                image_path: text_at(doc, "image_path"@)->0,
                jpg_quality: number_at(doc, "jpg_quality"@)->0 as u8,
                base_address: text_at(doc, "base_address"@)->0,
                max_area: number_at(doc, "max_area"@)->0,
            },
        )
    }
}

/// The text of a truth value.
pub open spec fn bool_text(b: bool) -> Seq<char> {
    if b {
        "true"@
    } else {
        "false"@
    }
}

/// The JSON document that a configuration is written as. Texts are written
/// as they are, between quotes.
pub open spec fn settings_text(c: Settings) -> Seq<char> {
    "{\n    \"ip\": [\n        "@ + decimal_text(c.ip.0 as nat) + ",\n        "@ + decimal_text(
        c.ip.1 as nat,
    ) + ",\n        "@ + decimal_text(c.ip.2 as nat) + ",\n        "@ + decimal_text(
        c.ip.3 as nat,
    ) + "\n    ],\n    \"port\": "@ + decimal_text(c.port as nat)
        + ",\n    \"ssl\": {\n        \"enabled\": "@ + bool_text(c.ssl_enabled)
        + ",\n        \"key\": \""@ + c.ssl_key + "\",\n        \"cert\": \""@ + c.ssl_cert
        + "\"\n    },\n    \"image_path\": \""@ + c.image_path + "\",\n    \"jpg_quality\": "@
        + decimal_text(c.jpg_quality as nat) + ",\n    \"base_address\": \""@ + c.base_address
        + "\",\n    \"max_area\": "@ + decimal_text(c.max_area as nat) + "\n}"@
}

/// The address to listen on as text: the four numbers with dots, a colon,
/// the port.
pub open spec fn address_text(c: Settings) -> Seq<char> {
    decimal_text(c.ip.0 as nat) + "."@ + decimal_text(c.ip.1 as nat) + "."@ + decimal_text(
        c.ip.2 as nat,
    ) + "."@ + decimal_text(c.ip.3 as nat) + ":"@ + decimal_text(c.port as nat)
}

/// The address to listen on.
pub fn ip(config: &Config) -> (r: (u8, u8, u8, u8))
    ensures
        r == config.ip,
{
    config.ip()
}

/// The port to listen on.
pub fn port(config: &Config) -> (r: u64)
    ensures
        r == config.port,
{
    config.port()
}

/// The directory of the pictures.
pub fn image_path(config: &Config) -> (r: String)
    ensures
        r@ == config.image_path@,
{
    config.image_path()
}

/// The quality of JPEG answers.
pub fn jpg_quality(config: &Config) -> (r: u8)
    ensures
        r == config.jpg_quality,
{
    config.jpg_quality()
}

/// The scheme and host under which the service is reached.
pub fn base_address(config: &Config) -> (r: String)
    ensures
        r@ == config.base_address@,
{
    config.base_address()
}

/// The largest area that the service advertises.
pub fn max_area(config: &Config) -> (r: u64)
    ensures
        r == config.max_area,
{
    config.max_area()
}

/// The address to listen on as text.
pub fn address_as_str(config: &Config) -> (r: String)
    ensures
        r@ == address_text(config@),
{
    let mut s = String::new();
    append_decimal(&mut s, config.ip.0 as u64);
    s.append(".");
    append_decimal(&mut s, config.ip.1 as u64);
    s.append(".");
    append_decimal(&mut s, config.ip.2 as u64);
    s.append(".");
    append_decimal(&mut s, config.ip.3 as u64);
    s.append(":");
    append_decimal(&mut s, config.port);
    s
}

impl Default for Config {
    /// The configuration that a first run starts with.
    fn default() -> (c: Config)
        ensures
            c.ip == (127u8, 0u8, 0u8, 1u8),
            c.port == 8000,
            !c.ssl_enabled,
            c.ssl_key@ == ""@,
            c.ssl_cert@ == ""@,
            c.image_path@ == "./files"@,
            c.jpg_quality == 80,
            c.base_address@ == "http://localhost"@,
            c.max_area == 16_777_216,
            c@.in_bounds(),
    {
        Config {
            ip: (127, 0, 0, 1),
            port: 8000,
            ssl_enabled: false,
            ssl_key: "".to_owned(),
            ssl_cert: "".to_owned(),
            image_path: "./files".to_owned(),
            jpg_quality: 80,
            base_address: "http://localhost".to_owned(),
            max_area: 16_777_216,
        }
    }
}

impl Config {
    /// Reads a configuration from the text of a JSON document. What is
    /// read is within its bounds.
    pub fn load(raw_str: &str) -> (r: Result<Config, String>)
        ensures
            r is Ok ==> r->Ok_0@.in_bounds(),
            match json_document(raw_str@) {
                None => r is Err && has_prefix(r->Err_0@, DOCUMENT_REFUSED@),
                Some(doc) => match settings_of(doc) {
                    Ok(settings) => r is Ok && r->Ok_0@ == settings,
                    Err(m) => r is Err && r->Err_0@ == m,
                },
            },
    {
        match parse_document(raw_str) {
            Ok(doc) => Config::from_document(&doc),
            Err(e) => {
                let mut message = DOCUMENT_REFUSED.to_owned();
                let detail = describe_json_error(&e);
                message.append(detail.as_str());
                proof {
                    assert(message@.take(DOCUMENT_REFUSED@.len() as int) =~= DOCUMENT_REFUSED@);
                }
                Err(message)
            },
        }
    }

    /// Reads a configuration from a JSON document.
    pub fn from_document(config: &serde_json::Map<String, serde_json::Value>) -> (r: Result<
        Config,
        String,
    >)
        ensures
            r is Ok ==> r->Ok_0@.in_bounds(),
            match settings_of(*config) {
                Ok(settings) => r is Ok && r->Ok_0@ == settings,
                Err(m) => r is Err && r->Err_0@ == m,
            },
    {
        let port = match Config::parse_port(config) {
            Ok(v) => v,
            Err(e) => {
                return Err(e);
            },
        };
        let ip = match Config::parse_ip(config) {
            Ok(v) => v,
            Err(e) => {
                return Err(e);
            },
        };
        let ssl_enabled = match Config::parse_ssl_enabled(config) {
            Ok(v) => v,
            Err(e) => {
                return Err(e);
            },
        };
        let ssl_key = match Config::parse_ssl_key(config) {
            Ok(v) => v,
            Err(e) => {
                return Err(e);
            },
        };
        let ssl_cert = match Config::parse_ssl_cert(config) {
            Ok(v) => v,
            Err(e) => {
                return Err(e);
            },
        };
        let image_path = match Config::parse_img_path(config) {
            Ok(v) => v,
            Err(e) => {
                return Err(e);
            },
        };
        let jpg_quality = match Config::parse_jpg_quality(config) {
            Ok(v) => v,
            Err(e) => {
                return Err(e);
            },
        };
        let base_address = match Config::parse_base_address(config) {
            Ok(v) => v,
            Err(e) => {
                return Err(e);
            },
        };
        let max_area = match Config::parse_max_area(config) {
            Ok(v) => v,
            Err(e) => {
                return Err(e);
            },
        };
        Ok(
            Config {
                ip,
                port,
                ssl_enabled,
                ssl_key,
                ssl_cert,
                image_path,
                jpg_quality,
                base_address,
                max_area,
            },
        )
    }

    /// The number under `key`.
    fn number(e: &serde_json::Map<String, serde_json::Value>, key: &str) -> (r: Option<u64>)
        ensures
            r == number_at(*e, key@),
    {
        match member(e, key) {
            Some(v) => as_u64(v),
            None => None,
        }
    }

    /// The number under `key`, if it is at most `most`.
    fn bounded(e: &serde_json::Map<String, serde_json::Value>, key: &str, most: u64) -> (r: Option<
        u64,
    >)
        ensures
            r == bounded_at(*e, key@, most),
    {
        match Config::number(e, key) {
            Some(n) => if n <= most {
                Some(n)
            } else {
                None
            },
            None => None,
        }
    }

    /// The text under `key`.
    fn text(e: &serde_json::Map<String, serde_json::Value>, key: &str) -> (r: Option<String>)
        ensures
            match text_at(*e, key@) {
                Some(t) => r is Some && r->0@ == t,
                None => r is None,
            },
    {
        match member(e, key) {
            Some(v) => match as_text(v) {
                Some(s) => Some(s.to_owned()),
                None => None,
            },
            None => None,
        }
    }

    /// The object under `ssl`.
    fn ssl<'a>(e: &'a serde_json::Map<String, serde_json::Value>) -> (r: Option<
        &'a serde_json::Map<String, serde_json::Value>,
    >)
        ensures
            match r {
                Some(map) => ssl_of(*e) == Some(*map),
                None => ssl_of(*e) is None,
            },
    {
        match member(e, "ssl") {
            Some(v) => as_fields(v),
            None => None,
        }
    }

    /// The address that a list of numbers writes.
    pub fn address(numbers: &Vec<Option<u64>>) -> (r: Result<(u8, u8, u8, u8), String>)
        ensures
            match address_of(numbers@) {
                Ok(ip) => r == Ok::<(u8, u8, u8, u8), String>(ip),
                Err(m) => r is Err && r->Err_0@ == m,
            },
    {
        if numbers.len() < 4 {
            return Err(IP_ITEMS.to_owned());
        }
        match (numbers[0], numbers[1], numbers[2], numbers[3]) {
            (Some(a), Some(b), Some(c), Some(d)) => if a <= 255 && b <= 255 && c <= 255 && d
                <= 255 {
                Ok((a as u8, b as u8, c as u8, d as u8))
            } else {
                Err(IP_ITEMS.to_owned())
            },
            _ => Err(IP_ITEMS.to_owned()),
        }
    }

    /// Reads the address to listen on.
    pub fn parse_ip(e: &serde_json::Map<String, serde_json::Value>) -> (r: Result<
        (u8, u8, u8, u8),
        String,
    >)
        ensures
            match ip_of(*e) {
                Ok(ip) => r == Ok::<(u8, u8, u8, u8), String>(ip),
                Err(m) => r is Err && r->Err_0@ == m,
            },
    {
        if let Some(v) = member(e, "ip") {
            if let Some(arr) = as_items(v) {
                let mut numbers: Vec<Option<u64>> = Vec::new();
                let mut i: usize = 0;
                while i < arr.len()
                    invariant
                        i <= arr.len(),
                        numbers@ == numbers_of(arr@.take(i as int)),
                    decreases arr.len() - i,
                {
                    numbers.push(as_u64(&arr[i]));
                    proof {
                        assert(numbers@ =~= numbers_of(arr@.take(i + 1)));
                    }
                    i += 1;
                }
                proof {
                    assert(arr@.take(arr.len() as int) =~= arr@);
                }
                return Config::address(&numbers);
            }
        }
        Err(IP_MISSING.to_owned())
    }

    /// Reads the port to listen on, a number up to 65535.
    pub fn parse_port(e: &serde_json::Map<String, serde_json::Value>) -> (r: Result<u64, String>)
        ensures
            match bounded_at(*e, "port"@, PORT_MAX) {
                Some(p) => r == Ok::<u64, String>(p),
                None => r is Err && r->Err_0@ == PORT_MISSING@,
            },
    {
        match Config::bounded(e, "port", PORT_MAX) {
            Some(p) => Ok(p),
            None => Err(PORT_MISSING.to_owned()),
        }
    }

    /// Reads whether TLS is on.
    pub fn parse_ssl_enabled(e: &serde_json::Map<String, serde_json::Value>) -> (r: Result<
        bool,
        String,
    >)
        ensures
            match ssl_enabled_of(*e) {
                Some(b) => r == Ok::<bool, String>(b),
                None => r is Err && r->Err_0@ == SSL_ENABLED_MISSING@,
            },
    {
        if let Some(o) = Config::ssl(e) {
            if let Some(enabled) = member(o, "enabled") {
                if let Some(b) = as_bool(enabled) {
                    return Ok(b);
                }
            }
        }
        Err(SSL_ENABLED_MISSING.to_owned())
    }

    /// Reads the path of the TLS key.
    pub fn parse_ssl_key(e: &serde_json::Map<String, serde_json::Value>) -> (r: Result<
        String,
        String,
    >)
        ensures
            match ssl_text_of(*e, "key"@) {
                Some(t) => r is Ok && r->Ok_0@ == t,
                None => r is Err && r->Err_0@ == SSL_KEY_MISSING@,
            },
    {
        if let Some(o) = Config::ssl(e) {
            if let Some(key) = Config::text(o, "key") {
                return Ok(key);
            }
        }
        Err(SSL_KEY_MISSING.to_owned())
    }

    /// Reads the path of the TLS certificate.
    pub fn parse_ssl_cert(e: &serde_json::Map<String, serde_json::Value>) -> (r: Result<
        String,
        String,
    >)
        ensures
            match ssl_text_of(*e, "cert"@) {
                Some(t) => r is Ok && r->Ok_0@ == t,
                None => r is Err && r->Err_0@ == SSL_CERT_MISSING@,
            },
    {
        if let Some(o) = Config::ssl(e) {
            if let Some(cert) = Config::text(o, "cert") {
                return Ok(cert);
            }
        }
        Err(SSL_CERT_MISSING.to_owned())
    }

    /// Reads the directory of the pictures.
    pub fn parse_img_path(e: &serde_json::Map<String, serde_json::Value>) -> (r: Result<
        String,
        String,
    >)
        ensures
            match text_at(*e, "image_path"@) {
                Some(t) => r is Ok && r->Ok_0@ == t,
                None => r is Err && r->Err_0@ == IMAGE_PATH_MISSING@,
            },
    {
        match Config::text(e, "image_path") {
            Some(p) => Ok(p),
            None => Err(IMAGE_PATH_MISSING.to_owned()),
        }
    }

    /// Reads the quality of JPEG answers, a number up to 100.
    pub fn parse_jpg_quality(e: &serde_json::Map<String, serde_json::Value>) -> (r: Result<
        u8,
        String,
    >)
        ensures
            match bounded_at(*e, "jpg_quality"@, QUALITY_MAX) {
                Some(q) => r == Ok::<u8, String>(q as u8),
                None => r is Err && r->Err_0@ == JPG_QUALITY_MISSING@,
            },
    {
        match Config::bounded(e, "jpg_quality", QUALITY_MAX) {
            Some(p) => Ok(p as u8),
            None => Err(JPG_QUALITY_MISSING.to_owned()),
        }
    }

    /// Reads the scheme and host under which the service is reached.
    pub fn parse_base_address(e: &serde_json::Map<String, serde_json::Value>) -> (r: Result<
        String,
        String,
    >)
        ensures
            match text_at(*e, "base_address"@) {
                Some(t) => r is Ok && r->Ok_0@ == t,
                None => r is Err && r->Err_0@ == BASE_ADDRESS_MISSING@,
            },
    {
        match Config::text(e, "base_address") {
            Some(s) => Ok(s),
            None => Err(BASE_ADDRESS_MISSING.to_owned()),
        }
    }

    /// Reads the largest area that the service advertises.
    pub fn parse_max_area(e: &serde_json::Map<String, serde_json::Value>) -> (r: Result<
        u64,
        String,
    >)
        ensures
            match number_at(*e, "max_area"@) {
                Some(a) => r == Ok::<u64, String>(a),
                None => r is Err && r->Err_0@ == MAX_AREA_MISSING@,
            },
    {
        match Config::number(e, "max_area") {
            Some(a) => Ok(a),
            None => Err(MAX_AREA_MISSING.to_owned()),
        }
    }

    /// The address to listen on.
    pub fn ip(&self) -> (r: (u8, u8, u8, u8))
        ensures
            r == self.ip,
    {
        self.ip
    }

    /// The port to listen on.
    pub fn port(&self) -> (r: u64)
        ensures
            r == self.port,
    {
        self.port
    }

    /// The directory of the pictures.
    pub fn image_path(&self) -> (r: String)
        ensures
            r@ == self.image_path@,
    {
        self.image_path.clone()
    }

    /// The quality of JPEG answers.
    pub fn jpg_quality(&self) -> (r: u8)
        ensures
            r == self.jpg_quality,
    {
        self.jpg_quality
    }

    /// The scheme and host under which the service is reached.
    pub fn base_address(&self) -> (r: String)
        ensures
            r@ == self.base_address@,
    {
        self.base_address.clone()
    }

    /// The largest area that the service advertises.
    pub fn max_area(&self) -> (r: u64)
        ensures
            r == self.max_area,
    {
        self.max_area
    }

    /// Writes the configuration as a JSON document.
    pub fn serialize(&self) -> (r: String)
        ensures
            r@ == settings_text(self@),
    {
        let mut s = "{\n    \"ip\": [\n        ".to_owned();
        append_decimal(&mut s, self.ip.0 as u64);
        s.append(",\n        ");
        append_decimal(&mut s, self.ip.1 as u64);
        s.append(",\n        ");
        append_decimal(&mut s, self.ip.2 as u64);
        s.append(",\n        ");
        append_decimal(&mut s, self.ip.3 as u64);
        s.append("\n    ],\n    \"port\": ");
        append_decimal(&mut s, self.port);
        s.append(",\n    \"ssl\": {\n        \"enabled\": ");
        s.append(
            if self.ssl_enabled {
                "true"
            } else {
                "false"
            },
        );
        s.append(",\n        \"key\": \"");
        s.append(self.ssl_key.as_str());
        s.append("\",\n        \"cert\": \"");
        s.append(self.ssl_cert.as_str());
        s.append("\"\n    },\n    \"image_path\": \"");
        s.append(self.image_path.as_str());
        s.append("\",\n    \"jpg_quality\": ");
        append_decimal(&mut s, self.jpg_quality as u64);
        s.append(",\n    \"base_address\": \"");
        s.append(self.base_address.as_str());
        s.append("\",\n    \"max_area\": ");
        append_decimal(&mut s, self.max_area);
        s.append("\n}");
        s
    }
}

} // verus!
