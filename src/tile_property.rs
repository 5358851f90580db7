//! Errors in reading the properties of tiles.
use vstd::prelude::*;

verus! {

/// An error in finding a property of a tile.
#[derive(Clone, Debug)]
pub enum TilePropertyError {
    /// The tile map has no tile set, so no tile data is available.
    MissingTileSet,
    /// The tile map has a tile set, but it is not loaded yet.
    TileSetNotLoaded,
    /// The tile set has no property with the given name.
    UnrecognizedName(String),
    /// The tile set has no property with the given UUID, held as its 128-bit value.
    UnrecognizedUuid(u128),
    /// The property has another type than the one asked for.
    WrongType(String),
}

/// The lowercase hexadecimal digit of `n`, for `n` below 16.
pub open spec fn hex_digit(n: int) -> char {
    seq!['0', '1', '2', '3', '4', '5', '6', '7', '8', '9', 'a', 'b', 'c', 'd', 'e', 'f'][n]
}

/// The `k`-th hexadecimal digit of `v`, counting from the most significant.
pub open spec fn uuid_nibble(v: u128, k: int) -> int {
    ((v >> ((124 - 4 * k) as u128)) & 15u128) as int
}

/// Which hexadecimal digit stands at character `j` of the hyphenated form.
pub open spec fn uuid_digit_index(j: int) -> int {
    if j < 8 {
        j
    } else if j < 13 {
        j - 1
    } else if j < 18 {
        j - 2
    } else if j < 23 {
        j - 3
    } else {
        j - 4
    }
}

/// The hyphenated lowercase form of a UUID with the 128-bit value `v`, such as
/// `67e55044-10b1-426f-9247-bb680e5fe0c8`: its 32 digits, most significant first,
/// in groups of 8, 4, 4, 4 and 12.
pub open spec fn uuid_text(v: u128) -> Seq<char> {
    Seq::new(
        36,
        |j: int|
            if j == 8 || j == 13 || j == 18 || j == 23 {
                '-'
            } else {
                hex_digit(uuid_nibble(v, uuid_digit_index(j)))
            },
    )
}

/// Relies on uuid's `Uuid::from_u128` (the value's big-endian bytes) and its
/// `Display`, which writes the hyphenated lowercase form.
#[verifier::external_body]
fn uuid_string(v: u128) -> (r: String)
    ensures
        r@ == uuid_text(v),
{
    fyrox_core::uuid::Uuid::from_u128(v).to_string()
}

/// The text that describes a property error.
pub open spec fn property_error_text(e: TilePropertyError) -> Seq<char> {
    match e {
        TilePropertyError::MissingTileSet => "The tile map has no tile set."@,
        TilePropertyError::TileSetNotLoaded => "The tile map's tile set is not loaded."@,
        TilePropertyError::UnrecognizedName(name) => "There is no property with this name: "@
            + name@,
        TilePropertyError::UnrecognizedUuid(uuid) => "There is no property with this UUID: "@
            + uuid_text(uuid),
        TilePropertyError::WrongType(message) => "Property type error: "@ + message@,
    }
}

impl TilePropertyError {
    /// Describes the error in a sentence.
    pub fn message(&self) -> (r: String)
        ensures
            r@ == property_error_text(*self),
    {
        match self {
            TilePropertyError::MissingTileSet => {
                proof {
                    reveal_strlit("The tile map has no tile set.");
                }
                "The tile map has no tile set.".to_owned()
            },
            TilePropertyError::TileSetNotLoaded => {
                proof {
                    reveal_strlit("The tile map's tile set is not loaded.");
                }
                "The tile map's tile set is not loaded.".to_owned()
            },
            TilePropertyError::UnrecognizedName(name) => {
                proof {
                    reveal_strlit("There is no property with this name: ");
                }
                let head = String::from_str("There is no property with this name: ");
                head.concat(name.as_str())
            },
            TilePropertyError::UnrecognizedUuid(uuid) => {
                proof {
                    reveal_strlit("There is no property with this UUID: ");
                }
                let head = String::from_str("There is no property with this UUID: ");
                let text = uuid_string(*uuid);
                head.concat(text.as_str())
            },
            TilePropertyError::WrongType(message) => {
                proof {
                    reveal_strlit("Property type error: ");
                }
                let head = String::from_str("Property type error: ");
                head.concat(message.as_str())
            },
        }
    }
}

} // verus!
