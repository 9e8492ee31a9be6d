//! Base data included in every request made to the backend, and the
//! process-wide configuration surface: one read accessor for the effective
//! backend base address, which falls back to a fixed literal unless the
//! caller supplies an override.

use vstd::prelude::*;
use crate::indexed::{emit_fields, encode_record, Field, FieldV};
use crate::value::{Value, ValueV};

verus! {

/// The fixed default backend base address.
pub open spec fn spec_default_base_url() -> Seq<char> {
    "https://www.silverragdps.mathieuar.fr"@
}

/// The effective backend base address: the configured override if one was
/// supplied, the fixed default otherwise.
pub fn endpoint_base_url(configured: Option<&str>) -> (r: String)
    ensures
        r@ == (match configured {
            Some(c) => c@,
            None => spec_default_base_url(),
        }),
{
    match configured {
        Some(c) => c.to_owned(),
        None => "https://www.silverragdps.mathieuar.fr".to_owned(),
    }
}

/// A client version; on the wire it is one decimal number, ten times the
/// major version plus the minor version (so 2.2 travels as `22`).
#[derive(Clone, Copy, PartialEq, Eq, Structural, Debug)]
pub struct GameVersion {
    pub major: u8,
    pub minor: u8,
}

impl GameVersion {
    /// The number this version travels as.
    pub open spec fn spec_wire_number(&self) -> int {
        self.major * 10 + self.minor
    }

    /// The number this version travels as.
    pub fn wire_number(&self) -> (r: u32)
        ensures
            r == self.spec_wire_number(),
    {
        (self.major as u32) * 10 + (self.minor as u32)
    }
}

/// Base data included in every request made: the game and binary versions
/// the client claims, and the secret the server uses to identify valid
/// clients.
pub struct BaseRequest {
    pub game_version: GameVersion,
    pub binary_version: GameVersion,
    pub secret: String,
}

/// The mathematical model of a `BaseRequest`.
pub struct BaseRequestV {
    pub game_version: GameVersion,
    pub binary_version: GameVersion,
    pub secret: Seq<char>,
}

impl View for BaseRequest {
    type V = BaseRequestV;

    open spec fn view(&self) -> BaseRequestV {
        BaseRequestV {
            game_version: self.game_version,
            binary_version: self.binary_version,
            secret: self.secret@,
        }
    }
}

/// The field values a 2.2 client sends.
pub open spec fn spec_gd_22() -> BaseRequestV {
    BaseRequestV {
        game_version: GameVersion { major: 2, minor: 2 },
        binary_version: GameVersion { major: 3, minor: 8 },
        secret: "Wmfd2893gb7"@,
    }
}

/// The field values a 2.1 client sends.
pub open spec fn spec_gd_21() -> BaseRequestV {
    BaseRequestV {
        game_version: GameVersion { major: 2, minor: 1 },
        binary_version: GameVersion { major: 3, minor: 3 },
        secret: "Wmfd2893gb7"@,
    }
}

/// The fields of a base request, in declared order: `gameVersion`,
/// `binaryVersion`, `secret`.
pub open spec fn spec_base_fields(b: BaseRequestV) -> Seq<FieldV> {
    seq![
        FieldV {
            name: "gameVersion"@,
            value: ValueV::U32((b.game_version.major * 10 + b.game_version.minor) as u32),
        },
        FieldV {
            name: "binaryVersion"@,
            value: ValueV::U32((b.binary_version.major * 10 + b.binary_version.minor) as u32),
        },
        FieldV { name: "secret"@, value: ValueV::Str(b.secret) },
    ]
}

impl BaseRequest {
    /// A base request with the given versions and secret.
    pub fn new(game_version: GameVersion, binary_version: GameVersion, secret: &str) -> (r:
        BaseRequest)
        ensures
            r.game_version == game_version,
            r.binary_version == binary_version,
            r.secret@ == secret@,
    {
        BaseRequest { game_version, binary_version, secret: secret.to_owned() }
    }

    /// A base request with all fields set to the values a Geometry Dash
    /// 2.2 client would use.
    pub fn gd_22() -> (r: BaseRequest)
        ensures
            r@ == spec_gd_22(),
    {
        BaseRequest {
            game_version: GameVersion { major: 2, minor: 2 },
            binary_version: GameVersion { major: 3, minor: 8 },
            secret: "Wmfd2893gb7".to_owned(),
        }
    }

    /// A base request with all fields set to the values a Geometry Dash
    /// 2.1 client would use.
    pub fn gd_21() -> (r: BaseRequest)
        ensures
            r@ == spec_gd_21(),
    {
        BaseRequest {
            game_version: GameVersion { major: 2, minor: 1 },
            binary_version: GameVersion { major: 3, minor: 3 },
            secret: "Wmfd2893gb7".to_owned(),
        }
    }

    /// A value-identical copy.
    pub fn duplicate(&self) -> (r: BaseRequest)
        ensures
            r@ == self@,
    {
        BaseRequest {
            game_version: self.game_version,
            binary_version: self.binary_version,
            secret: self.secret.clone(),
        }
    }

    /// This request's fields, in declared order.
    pub fn to_fields(&self) -> (r: Vec<Field>)
        ensures
            r@.map_values(|f: Field| f@) == spec_base_fields(self@),
    {
        let mut v: Vec<Field> = Vec::new();
        v.push(
            Field {
                name: "gameVersion".to_owned(),
                value: Value::U32(self.game_version.wire_number()),
            },
        );
        v.push(
            Field {
                name: "binaryVersion".to_owned(),
                value: Value::U32(self.binary_version.wire_number()),
            },
        );
        v.push(Field { name: "secret".to_owned(), value: Value::Str(self.secret.clone()) });
        proof {
            assert(v@.map_values(|f: Field| f@) =~= spec_base_fields(self@));
        }
        v
    }
}

impl Default for BaseRequest {
    /// The default base request is the one a 2.2 client sends.
    fn default() -> (r: BaseRequest)
        ensures
            r@ == spec_gd_22(),
    {
        BaseRequest::gd_22()
    }
}

/// Encodes a request's fields in keyed mode with the `&` delimiter: the
/// text rendering the transport layer sends.
pub fn request_to_string(fields: &Vec<Field>) -> (r: String)
    ensures
        r@ == emit_fields(true, "&"@, true, fields@.map_values(|f: Field| f@)).0,
{
    encode_record(fields, "&", true)
}

} // verus!
