//! The conversions of the call tool behind one entry: from the name of a
//! conversion and its parameters to the command line that carries it out.

use vstd::prelude::*;
use vstd::string::StringExecFns;
use crate::command::CommandSpec;
use crate::command::Invocation;
use crate::json::lemma_array_view;
use crate::json::members;
use crate::json::views;
use crate::json::Json;
use crate::json::JsonEntry;
use crate::json::JsonValue;
use crate::json::Member;
use crate::text::concat;
use crate::text::decimal;
use crate::text::slices;
use crate::text::str_eq;
use crate::text::texts;
use crate::text::trim;
use crate::text::trimmed;
use crate::text::u64_to_string;
use crate::tool::entry;
use crate::tool::make_tool;
use crate::tool::object_json;
use crate::tool::parameter;
use crate::tool::parameter_entry;
use crate::tool::text_json;
use crate::tool::tool_view;
use crate::tool::Tool;
use crate::tool::ToolView;

verus! {

/// The conversions.
#[derive(Debug, Clone, Copy, PartialEq, Eq, Structural)]
pub enum ConversionType {
    // The limits of the integer types.
    MaxInt,
    MinInt,
    MaxUint,
    // The zero constants.
    AddressZero,
    HashZero,
    // Between text, binary and hex.
    FromUtf8,
    ToAscii,
    ToUtf8,
    FromBin,
    // On hex and numbers.
    ConcatHex,
    ToHexdata,
    ToHex,
    ToDec,
    ToBase,
    // On addresses.
    ToCheckSumAddress,
    // On bytes.
    ToBytes32,
    // Between the integer types.
    ToUint256,
    ToInt256,
    // Fixed point.
    FromFixedPoint,
    ToFixedPoint,
    // Bit shifts.
    Shl,
    Shr,
    // Between units.
    ToUnit,
    ParseUnits,
    FormatUnits,
    ToWei,
    FromWei,
    // RLP.
    ToRlp,
    FromRlp,
}

impl ConversionType {
    /// The subcommand of the call tool that carries the conversion out.
    pub open spec fn subcommand_text(self) -> Seq<char> {
        match self {
            ConversionType::MaxInt => "max-int"@,
            ConversionType::MinInt => "min-int"@,
            ConversionType::MaxUint => "max-uint"@,
            ConversionType::AddressZero => "address-zero"@,
            ConversionType::HashZero => "hash-zero"@,
            ConversionType::FromUtf8 => "from-utf8"@,
            ConversionType::ToAscii => "to-ascii"@,
            ConversionType::ToUtf8 => "to-utf8"@,
            ConversionType::FromBin => "from-bin"@,
            ConversionType::ConcatHex => "concat-hex"@,
            ConversionType::ToHexdata => "to-hexdata"@,
            ConversionType::ToHex => "to-hex"@,
            ConversionType::ToDec => "to-dec"@,
            ConversionType::ToBase => "to-base"@,
            ConversionType::ToCheckSumAddress => "to-check-sum-address"@,
            ConversionType::ToBytes32 => "to-bytes32"@,
            ConversionType::ToUint256 => "to-uint256"@,
            ConversionType::ToInt256 => "to-int256"@,
            ConversionType::FromFixedPoint => "from-fixed-point"@,
            ConversionType::ToFixedPoint => "to-fixed-point"@,
            ConversionType::Shl => "shl"@,
            ConversionType::Shr => "shr"@,
            ConversionType::ToUnit => "to-unit"@,
            ConversionType::ParseUnits => "parse-units"@,
            ConversionType::FormatUnits => "format-units"@,
            ConversionType::ToWei => "to-wei"@,
            ConversionType::FromWei => "from-wei"@,
            ConversionType::ToRlp => "to-rlp"@,
            ConversionType::FromRlp => "from-rlp"@,
        }
    }

    /// What the conversion does, in words.
    pub open spec fn description_text(self) -> Seq<char> {
        match self {
            ConversionType::MaxInt => "Get the maximum value of a signed integer type"@,
            ConversionType::MinInt => "Get the minimum value of a signed integer type"@,
            ConversionType::MaxUint => "Get the maximum value of an unsigned integer type"@,
            ConversionType::AddressZero => "Get the zero address (0x0000...0000)"@,
            ConversionType::HashZero => "Get the zero hash (0x0000...0000)"@,
            ConversionType::FromUtf8 => "Convert UTF-8 text to hex"@,
            ConversionType::ToAscii => "Convert hex to ASCII string"@,
            ConversionType::ToUtf8 => "Convert hex to UTF-8 string"@,
            ConversionType::FromBin => "Convert binary data to hex"@,
            ConversionType::ConcatHex => "Concatenate multiple hex strings"@,
            ConversionType::ToHexdata => "Normalize input to lowercase 0x-prefixed hex"@,
            ConversionType::ToHex => "Convert number to hexadecimal"@,
            ConversionType::ToDec => "Convert number to decimal"@,
            ConversionType::ToBase => "Convert number to arbitrary base"@,
            ConversionType::ToCheckSumAddress => "Convert address to EIP-55 checksummed format"@,
            ConversionType::ToBytes32 => "Right-pad hex data to 32 bytes"@,
            ConversionType::ToUint256 => "Convert number to hex-encoded uint256"@,
            ConversionType::ToInt256 => "Convert number to hex-encoded int256"@,
            ConversionType::FromFixedPoint => "Convert fixed point number to integer"@,
            ConversionType::ToFixedPoint => "Convert integer to fixed point number"@,
            ConversionType::Shl => "Perform left bit shift operation"@,
            ConversionType::Shr => "Perform right bit shift operation"@,
            ConversionType::ToUnit => "Convert ETH amount between units (wei, gwei, ether)"@,
            ConversionType::ParseUnits => "Convert decimal to smallest unit with arbitrary decimals"@,
            ConversionType::FormatUnits => "Convert smallest unit to decimal with arbitrary decimals"@,
            ConversionType::ToWei => "Convert ETH amount to wei"@,
            ConversionType::FromWei => "Convert wei to ETH amount"@,
            ConversionType::ToRlp => "RLP encode hex data or array"@,
            ConversionType::FromRlp => "Decode RLP hex-encoded data"@,
        }
    }

    /// The subcommand of the call tool that carries the conversion out.
    pub fn subcommand(&self) -> (r: &'static str)
        ensures
            r@ == self.subcommand_text(),
    {
        match self {
            ConversionType::MaxInt => "max-int",
            ConversionType::MinInt => "min-int",
            ConversionType::MaxUint => "max-uint",
            ConversionType::AddressZero => "address-zero",
            ConversionType::HashZero => "hash-zero",
            ConversionType::FromUtf8 => "from-utf8",
            ConversionType::ToAscii => "to-ascii",
            ConversionType::ToUtf8 => "to-utf8",
            ConversionType::FromBin => "from-bin",
            ConversionType::ConcatHex => "concat-hex",
            ConversionType::ToHexdata => "to-hexdata",
            ConversionType::ToHex => "to-hex",
            ConversionType::ToDec => "to-dec",
            ConversionType::ToBase => "to-base",
            ConversionType::ToCheckSumAddress => "to-check-sum-address",
            ConversionType::ToBytes32 => "to-bytes32",
            ConversionType::ToUint256 => "to-uint256",
            ConversionType::ToInt256 => "to-int256",
            ConversionType::FromFixedPoint => "from-fixed-point",
            ConversionType::ToFixedPoint => "to-fixed-point",
            ConversionType::Shl => "shl",
            ConversionType::Shr => "shr",
            ConversionType::ToUnit => "to-unit",
            ConversionType::ParseUnits => "parse-units",
            ConversionType::FormatUnits => "format-units",
            ConversionType::ToWei => "to-wei",
            ConversionType::FromWei => "from-wei",
            ConversionType::ToRlp => "to-rlp",
            ConversionType::FromRlp => "from-rlp",
        }
    }

    /// What the conversion does, in words.
    pub fn description(&self) -> (r: &'static str)
        ensures
            r@ == self.description_text(),
    {
        match self {
            ConversionType::MaxInt => "Get the maximum value of a signed integer type",
            ConversionType::MinInt => "Get the minimum value of a signed integer type",
            ConversionType::MaxUint => "Get the maximum value of an unsigned integer type",
            ConversionType::AddressZero => "Get the zero address (0x0000...0000)",
            ConversionType::HashZero => "Get the zero hash (0x0000...0000)",
            ConversionType::FromUtf8 => "Convert UTF-8 text to hex",
            ConversionType::ToAscii => "Convert hex to ASCII string",
            ConversionType::ToUtf8 => "Convert hex to UTF-8 string",
            ConversionType::FromBin => "Convert binary data to hex",
            ConversionType::ConcatHex => "Concatenate multiple hex strings",
            ConversionType::ToHexdata => "Normalize input to lowercase 0x-prefixed hex",
            ConversionType::ToHex => "Convert number to hexadecimal",
            ConversionType::ToDec => "Convert number to decimal",
            ConversionType::ToBase => "Convert number to arbitrary base",
            ConversionType::ToCheckSumAddress => "Convert address to EIP-55 checksummed format",
            ConversionType::ToBytes32 => "Right-pad hex data to 32 bytes",
            ConversionType::ToUint256 => "Convert number to hex-encoded uint256",
            ConversionType::ToInt256 => "Convert number to hex-encoded int256",
            ConversionType::FromFixedPoint => "Convert fixed point number to integer",
            ConversionType::ToFixedPoint => "Convert integer to fixed point number",
            ConversionType::Shl => "Perform left bit shift operation",
            ConversionType::Shr => "Perform right bit shift operation",
            ConversionType::ToUnit => "Convert ETH amount between units (wei, gwei, ether)",
            ConversionType::ParseUnits => "Convert decimal to smallest unit with arbitrary decimals",
            ConversionType::FormatUnits => "Convert smallest unit to decimal with arbitrary decimals",
            ConversionType::ToWei => "Convert ETH amount to wei",
            ConversionType::FromWei => "Convert wei to ETH amount",
            ConversionType::ToRlp => "RLP encode hex data or array",
            ConversionType::FromRlp => "Decode RLP hex-encoded data",
        }
    }

    /// The conversion whose subcommand is `name`.
    pub fn from_name(name: &str) -> (r: Option<ConversionType>)
        ensures
            r == conversion_named(name@),
    {
        if str_eq(name, "max-int") {
            Some(ConversionType::MaxInt)
        }         else if str_eq(name, "min-int") {
            Some(ConversionType::MinInt)
        }         else if str_eq(name, "max-uint") {
            Some(ConversionType::MaxUint)
        }         else if str_eq(name, "address-zero") {
            Some(ConversionType::AddressZero)
        }         else if str_eq(name, "hash-zero") {
            Some(ConversionType::HashZero)
        }         else if str_eq(name, "from-utf8") {
            Some(ConversionType::FromUtf8)
        }         else if str_eq(name, "to-ascii") {
            Some(ConversionType::ToAscii)
        }         else if str_eq(name, "to-utf8") {
            Some(ConversionType::ToUtf8)
        }         else if str_eq(name, "from-bin") {
            Some(ConversionType::FromBin)
        }         else if str_eq(name, "concat-hex") {
            Some(ConversionType::ConcatHex)
        }         else if str_eq(name, "to-hexdata") {
            Some(ConversionType::ToHexdata)
        }         else if str_eq(name, "to-hex") {
            Some(ConversionType::ToHex)
        }         else if str_eq(name, "to-dec") {
            Some(ConversionType::ToDec)
        }         else if str_eq(name, "to-base") {
            Some(ConversionType::ToBase)
        }         else if str_eq(name, "to-check-sum-address") {
            Some(ConversionType::ToCheckSumAddress)
        }         else if str_eq(name, "to-bytes32") {
            Some(ConversionType::ToBytes32)
        }         else if str_eq(name, "to-uint256") {
            Some(ConversionType::ToUint256)
        }         else if str_eq(name, "to-int256") {
            Some(ConversionType::ToInt256)
        }         else if str_eq(name, "from-fixed-point") {
            Some(ConversionType::FromFixedPoint)
        }         else if str_eq(name, "to-fixed-point") {
            Some(ConversionType::ToFixedPoint)
        }         else if str_eq(name, "shl") {
            Some(ConversionType::Shl)
        }         else if str_eq(name, "shr") {
            Some(ConversionType::Shr)
        }         else if str_eq(name, "to-unit") {
            Some(ConversionType::ToUnit)
        }         else if str_eq(name, "parse-units") {
            Some(ConversionType::ParseUnits)
        }         else if str_eq(name, "format-units") {
            Some(ConversionType::FormatUnits)
        }         else if str_eq(name, "to-wei") {
            Some(ConversionType::ToWei)
        }         else if str_eq(name, "from-wei") {
            Some(ConversionType::FromWei)
        }         else if str_eq(name, "to-rlp") {
            Some(ConversionType::ToRlp)
        }         else if str_eq(name, "from-rlp") {
            Some(ConversionType::FromRlp)
        } else {
            None
        }
    }
}

/// The conversion whose subcommand is `name`.
pub open spec fn conversion_named(name: Seq<char>) -> Option<ConversionType> {
    if name == "max-int"@ {
        Some(ConversionType::MaxInt)
    }     else if name == "min-int"@ {
        Some(ConversionType::MinInt)
    }     else if name == "max-uint"@ {
        Some(ConversionType::MaxUint)
    }     else if name == "address-zero"@ {
        Some(ConversionType::AddressZero)
    }     else if name == "hash-zero"@ {
        Some(ConversionType::HashZero)
    }     else if name == "from-utf8"@ {
        Some(ConversionType::FromUtf8)
    }     else if name == "to-ascii"@ {
        Some(ConversionType::ToAscii)
    }     else if name == "to-utf8"@ {
        Some(ConversionType::ToUtf8)
    }     else if name == "from-bin"@ {
        Some(ConversionType::FromBin)
    }     else if name == "concat-hex"@ {
        Some(ConversionType::ConcatHex)
    }     else if name == "to-hexdata"@ {
        Some(ConversionType::ToHexdata)
    }     else if name == "to-hex"@ {
        Some(ConversionType::ToHex)
    }     else if name == "to-dec"@ {
        Some(ConversionType::ToDec)
    }     else if name == "to-base"@ {
        Some(ConversionType::ToBase)
    }     else if name == "to-check-sum-address"@ {
        Some(ConversionType::ToCheckSumAddress)
    }     else if name == "to-bytes32"@ {
        Some(ConversionType::ToBytes32)
    }     else if name == "to-uint256"@ {
        Some(ConversionType::ToUint256)
    }     else if name == "to-int256"@ {
        Some(ConversionType::ToInt256)
    }     else if name == "from-fixed-point"@ {
        Some(ConversionType::FromFixedPoint)
    }     else if name == "to-fixed-point"@ {
        Some(ConversionType::ToFixedPoint)
    }     else if name == "shl"@ {
        Some(ConversionType::Shl)
    }     else if name == "shr"@ {
        Some(ConversionType::Shr)
    }     else if name == "to-unit"@ {
        Some(ConversionType::ToUnit)
    }     else if name == "parse-units"@ {
        Some(ConversionType::ParseUnits)
    }     else if name == "format-units"@ {
        Some(ConversionType::FormatUnits)
    }     else if name == "to-wei"@ {
        Some(ConversionType::ToWei)
    }     else if name == "from-wei"@ {
        Some(ConversionType::FromWei)
    }     else if name == "to-rlp"@ {
        Some(ConversionType::ToRlp)
    }     else if name == "from-rlp"@ {
        Some(ConversionType::FromRlp)
    } else {
        None
    }
}

/// Every conversion is found again under its subcommand: no two conversions
/// share one.
pub proof fn lemma_subcommand_names_conversion(t: ConversionType)
    ensures
        conversion_named(t.subcommand_text()) == Some(t),
{
    reveal_strlit("max-int");
    assert("max-int"@.len() == 7);
    reveal_strlit("min-int");
    assert("min-int"@.len() == 7);
    reveal_strlit("max-uint");
    assert("max-uint"@.len() == 8);
    reveal_strlit("address-zero");
    assert("address-zero"@.len() == 12);
    reveal_strlit("hash-zero");
    assert("hash-zero"@.len() == 9);
    reveal_strlit("from-utf8");
    assert("from-utf8"@.len() == 9);
    reveal_strlit("to-ascii");
    assert("to-ascii"@.len() == 8);
    reveal_strlit("to-utf8");
    assert("to-utf8"@.len() == 7);
    reveal_strlit("from-bin");
    assert("from-bin"@.len() == 8);
    reveal_strlit("concat-hex");
    assert("concat-hex"@.len() == 10);
    reveal_strlit("to-hexdata");
    assert("to-hexdata"@.len() == 10);
    reveal_strlit("to-hex");
    assert("to-hex"@.len() == 6);
    reveal_strlit("to-dec");
    assert("to-dec"@.len() == 6);
    reveal_strlit("to-base");
    assert("to-base"@.len() == 7);
    reveal_strlit("to-check-sum-address");
    assert("to-check-sum-address"@.len() == 20);
    reveal_strlit("to-bytes32");
    assert("to-bytes32"@.len() == 10);
    reveal_strlit("to-uint256");
    assert("to-uint256"@.len() == 10);
    reveal_strlit("to-int256");
    assert("to-int256"@.len() == 9);
    reveal_strlit("from-fixed-point");
    assert("from-fixed-point"@.len() == 16);
    reveal_strlit("to-fixed-point");
    assert("to-fixed-point"@.len() == 14);
    reveal_strlit("shl");
    assert("shl"@.len() == 3);
    reveal_strlit("shr");
    assert("shr"@.len() == 3);
    reveal_strlit("to-unit");
    assert("to-unit"@.len() == 7);
    reveal_strlit("parse-units");
    assert("parse-units"@.len() == 11);
    reveal_strlit("format-units");
    assert("format-units"@.len() == 12);
    reveal_strlit("to-wei");
    assert("to-wei"@.len() == 6);
    reveal_strlit("from-wei");
    assert("from-wei"@.len() == 8);
    reveal_strlit("to-rlp");
    assert("to-rlp"@.len() == 6);
    reveal_strlit("from-rlp");
    assert("from-rlp"@.len() == 8);
    match t {
        ConversionType::MaxInt => {},
        ConversionType::MinInt => {
            assert("min-int"@[1] != "max-int"@[1]);
        },
        ConversionType::MaxUint => {},
        ConversionType::AddressZero => {},
        ConversionType::HashZero => {},
        ConversionType::FromUtf8 => {
            assert("from-utf8"@[0] != "hash-zero"@[0]);
        },
        ConversionType::ToAscii => {
            assert("to-ascii"@[0] != "max-uint"@[0]);
        },
        ConversionType::ToUtf8 => {
            assert("to-utf8"@[0] != "max-int"@[0]);
            assert("to-utf8"@[0] != "min-int"@[0]);
        },
        ConversionType::FromBin => {
            assert("from-bin"@[0] != "max-uint"@[0]);
            assert("from-bin"@[0] != "to-ascii"@[0]);
        },
        ConversionType::ConcatHex => {},
        ConversionType::ToHexdata => {
            assert("to-hexdata"@[0] != "concat-hex"@[0]);
        },
        ConversionType::ToHex => {},
        ConversionType::ToDec => {
            assert("to-dec"@[3] != "to-hex"@[3]);
        },
        ConversionType::ToBase => {
            assert("to-base"@[0] != "max-int"@[0]);
            assert("to-base"@[0] != "min-int"@[0]);
            assert("to-base"@[3] != "to-utf8"@[3]);
        },
        ConversionType::ToCheckSumAddress => {},
        ConversionType::ToBytes32 => {
            assert("to-bytes32"@[0] != "concat-hex"@[0]);
            assert("to-bytes32"@[3] != "to-hexdata"@[3]);
        },
        ConversionType::ToUint256 => {
            assert("to-uint256"@[0] != "concat-hex"@[0]);
            assert("to-uint256"@[3] != "to-hexdata"@[3]);
            assert("to-uint256"@[3] != "to-bytes32"@[3]);
        },
        ConversionType::ToInt256 => {
            assert("to-int256"@[0] != "hash-zero"@[0]);
            assert("to-int256"@[0] != "from-utf8"@[0]);
        },
        ConversionType::FromFixedPoint => {},
        ConversionType::ToFixedPoint => {},
        ConversionType::Shl => {},
        ConversionType::Shr => {
            assert("shr"@[2] != "shl"@[2]);
        },
        ConversionType::ToUnit => {
            assert("to-unit"@[0] != "max-int"@[0]);
            assert("to-unit"@[0] != "min-int"@[0]);
            assert("to-unit"@[4] != "to-utf8"@[4]);
            assert("to-unit"@[3] != "to-base"@[3]);
        },
        ConversionType::ParseUnits => {},
        ConversionType::FormatUnits => {
            assert("format-units"@[0] != "address-zero"@[0]);
        },
        ConversionType::ToWei => {
            assert("to-wei"@[3] != "to-hex"@[3]);
            assert("to-wei"@[3] != "to-dec"@[3]);
        },
        ConversionType::FromWei => {
            assert("from-wei"@[0] != "max-uint"@[0]);
            assert("from-wei"@[0] != "to-ascii"@[0]);
            assert("from-wei"@[5] != "from-bin"@[5]);
        },
        ConversionType::ToRlp => {
            assert("to-rlp"@[3] != "to-hex"@[3]);
            assert("to-rlp"@[3] != "to-dec"@[3]);
            assert("to-rlp"@[3] != "to-wei"@[3]);
        },
        ConversionType::FromRlp => {
            assert("from-rlp"@[0] != "max-uint"@[0]);
            assert("from-rlp"@[0] != "to-ascii"@[0]);
            assert("from-rlp"@[5] != "from-bin"@[5]);
            assert("from-rlp"@[5] != "from-wei"@[5]);
        },
    }
}

/// The parameters of a conversion. Which of them a conversion reads depends
/// on the conversion; the others are passed over.
#[derive(Debug)]
pub struct ConversionParams {
    /// The name of the conversion.
    pub conversion_type: String,
    /// The value to convert.
    pub value: Option<String>,
    /// The values to concatenate.
    pub values: Option<Vec<String>>,
    /// The integer type whose limit is asked for.
    pub int_type: Option<String>,
    /// The number of decimals of a fixed point number.
    pub decimals: Option<String>,
    /// The unit of an amount.
    pub unit: Option<String>,
    /// The base to convert to.
    pub base: Option<String>,
    /// The base of the input.
    pub base_in: Option<String>,
    /// The base of the output of a shift.
    pub base_out: Option<String>,
    /// The number of bits to shift by.
    pub bits: Option<String>,
    /// The chain whose id enters the checksum of an address.
    pub chain_id: Option<u64>,
    /// Whether decoded RLP is read as an integer.
    pub as_int: Option<bool>,
}

impl Default for ConversionParams {
    /// The parameters with an empty name and nothing else set.
    fn default() -> (r: Self)
        ensures
            r.conversion_type@.len() == 0,
            r.value is None,
            r.values is None,
            r.int_type is None,
            r.decimals is None,
            r.unit is None,
            r.base is None,
            r.base_in is None,
            r.base_out is None,
            r.bits is None,
            r.chain_id is None,
            r.as_int is None,
    {
        ConversionParams {
            conversion_type: String::new(),
            value: None,
            values: None,
            int_type: None,
            decimals: None,
            unit: None,
            base: None,
            base_in: None,
            base_out: None,
            bits: None,
            chain_id: None,
            as_int: None,
        }
    }
}

/// What went wrong with a conversion.
#[derive(Debug, PartialEq)]
pub enum ConversionError {
    /// No conversion has this name.
    InvalidType(String),
    /// The call tool could not be started for this subcommand.
    SpawnFailure(String),
    /// The call tool ran and failed; this is what it printed, trimmed.
    Failed(String),
}

/// What went wrong with a conversion, as mathematics sees it.
pub enum ConversionFailure {
    InvalidType(Seq<char>),
    SpawnFailure(Seq<char>),
    Failed(Seq<char>),
}

impl View for ConversionError {
    type V = ConversionFailure;

    open spec fn view(&self) -> ConversionFailure {
        match self {
            ConversionError::InvalidType(name) => ConversionFailure::InvalidType(name@),
            ConversionError::SpawnFailure(subcommand) => ConversionFailure::SpawnFailure(
                subcommand@,
            ),
            ConversionError::Failed(output) => ConversionFailure::Failed(output@),
        }
    }
}

impl ConversionFailure {
    /// The message that the caller is shown.
    pub open spec fn message(self) -> Seq<char> {
        match self {
            ConversionFailure::InvalidType(name) => "Invalid conversion type: "@ + name,
            ConversionFailure::SpawnFailure(subcommand) => "Failed to execute cast "@ + subcommand,
            ConversionFailure::Failed(output) => "Conversion failed: "@ + output,
        }
    }
}

impl ConversionError {
    /// The message that the caller is shown.
    pub fn to_string(&self) -> (r: String)
        ensures
            r@ == self@.message(),
    {
        match self {
            ConversionError::InvalidType(name) => concat("Invalid conversion type: ", name.as_str()),
            ConversionError::SpawnFailure(subcommand) => concat(
                "Failed to execute cast ",
                subcommand.as_str(),
            ),
            ConversionError::Failed(output) => concat("Conversion failed: ", output.as_str()),
        }
    }
}

/// The one token of a parameter that is set, and nothing for one that is not.
pub open spec fn given(p: Option<String>) -> Seq<Seq<char>> {
    match p {
        Some(t) => seq![t@],
        None => Seq::empty(),
    }
}

/// `flag` and the parameter where it is set, and nothing where it is not.
pub open spec fn given_with(flag: Seq<char>, p: Option<String>) -> Seq<Seq<char>> {
    match p {
        Some(t) => seq![flag, t@],
        None => Seq::empty(),
    }
}

/// The arguments of the call tool for a conversion: its subcommand, then
/// those of the parameters that the conversion reads and that are set.
pub open spec fn conversion_args(t: ConversionType, p: ConversionParams) -> Seq<Seq<char>> {
    seq![t.subcommand_text()] + (match t {
        ConversionType::MaxInt | ConversionType::MinInt | ConversionType::MaxUint => given(
            p.int_type,
        ),
        ConversionType::AddressZero | ConversionType::HashZero | ConversionType::FromBin => {
            Seq::empty()
        },
        ConversionType::FromUtf8
        | ConversionType::ToAscii
        | ConversionType::ToUtf8
        | ConversionType::ToHexdata
        | ConversionType::ToBytes32
        | ConversionType::ToUint256
        | ConversionType::ToInt256
        | ConversionType::ToRlp => given(p.value),
        ConversionType::ConcatHex => match p.values {
            Some(values) => texts(values@),
            None => Seq::empty(),
        },
        ConversionType::ToCheckSumAddress => given(p.value) + (match p.chain_id {
            Some(id) => seq![decimal(id as nat)],
            None => Seq::empty(),
        }),
        ConversionType::FromFixedPoint | ConversionType::ToFixedPoint => given(p.decimals) + given(
            p.value,
        ),
        ConversionType::Shl | ConversionType::Shr => given(p.value) + given(p.bits) + given_with(
            "--base-in"@,
            p.base_in,
        ) + given_with("--base-out"@, p.base_out),
        ConversionType::ToUnit
        | ConversionType::ToWei
        | ConversionType::FromWei
        | ConversionType::ParseUnits
        | ConversionType::FormatUnits => given(p.value) + given(p.unit),
        ConversionType::ToHex | ConversionType::ToDec => given(p.value) + given_with(
            "--base-in"@,
            p.base_in,
        ),
        ConversionType::ToBase => given(p.value) + given(p.base) + given_with(
            "--base-in"@,
            p.base_in,
        ),
        ConversionType::FromRlp => given(p.value) + (if p.as_int == Some(true) {
            seq!["--as-int"@]
        } else {
            Seq::empty()
        }),
    })
}

/// The invocation that a conversion resolves to: the call tool with the
/// arguments of the conversion, or a failure where no conversion has the name.
pub open spec fn conversion_invocation(p: ConversionParams, cast_path: Seq<char>) -> Result<
    Invocation,
    ConversionFailure,
> {
    match conversion_named(p.conversion_type@) {
        Some(t) => Ok(
            Invocation { command: "cast"@, program: cast_path, args: conversion_args(t, p) },
        ),
        None => Err(ConversionFailure::InvalidType(p.conversion_type@)),
    }
}

/// Appends the parameter to `args` where it is set.
fn push_given(args: &mut Vec<String>, p: Option<String>)
    ensures
        texts(final(args)@) == texts(old(args)@) + given(p),
{
    match p {
        Some(t) => {
            args.push(t);
        },
        None => {},
    }
}

/// Appends `flag` and the parameter to `args` where the parameter is set.
fn push_given_with(args: &mut Vec<String>, flag: &str, p: Option<String>)
    ensures
        texts(final(args)@) == texts(old(args)@) + given_with(flag@, p),
{
    match p {
        Some(t) => {
            let f = String::from_str(flag);
            args.push(f);
            args.push(t);
        },
        None => {
            assert(texts(args@) + Seq::<Seq<char>>::empty() =~= texts(args@));
        },
    }
}

/// Resolves a conversion into the invocation of the call tool that carries
/// it out. Nothing is started here: the caller runs the invocation and hands
/// what came of it to `conversion_result`.
pub fn execute_conversion(params: ConversionParams, cast_path: &str) -> (r: Result<
    CommandSpec,
    ConversionError,
>)
    ensures
        match r {
            Ok(spec) => conversion_invocation(params, cast_path@) == Ok::<
                Invocation,
                ConversionFailure,
            >(spec@),
            Err(e) => conversion_invocation(params, cast_path@) == Err::<
                Invocation,
                ConversionFailure,
            >(e@),
        },
{
    let conversion = match ConversionType::from_name(params.conversion_type.as_str()) {
        Some(t) => t,
        None => {
            return Err(ConversionError::InvalidType(params.conversion_type));
        },
    };
    let ghost p = params;
    let mut args: Vec<String> = Vec::new();
    args.push(String::from_str(conversion.subcommand()));
    proof {
        assert(texts(args@) =~= seq![conversion.subcommand_text()]);
    }
    let ghost head = texts(args@);
    match conversion {
        ConversionType::MaxInt | ConversionType::MinInt | ConversionType::MaxUint => {
            push_given(&mut args, params.int_type);
        },
        ConversionType::AddressZero | ConversionType::HashZero | ConversionType::FromBin => {},
        ConversionType::FromUtf8
        | ConversionType::ToAscii
        | ConversionType::ToUtf8
        | ConversionType::ToHexdata
        | ConversionType::ToBytes32
        | ConversionType::ToUint256
        | ConversionType::ToInt256
        | ConversionType::ToRlp => {
            push_given(&mut args, params.value);
        },
        ConversionType::ConcatHex => {
            match params.values {
                Some(mut values) => {
                    let ghost moved = values@;
                    args.append(&mut values);
                    assert(texts(args@) =~= head + texts(moved));
                },
                None => {},
            }
        },
        ConversionType::ToCheckSumAddress => {
            push_given(&mut args, params.value);
            match params.chain_id {
                Some(id) => {
                    push_given(&mut args, Some(u64_to_string(id)));
                },
                None => {},
            }
            assert(texts(args@) =~= head + (given(p.value) + (match p.chain_id {
                Some(id) => seq![decimal(id as nat)],
                None => Seq::empty(),
            })));
        },
        ConversionType::FromFixedPoint | ConversionType::ToFixedPoint => {
            push_given(&mut args, params.decimals);
            push_given(&mut args, params.value);
            assert(texts(args@) =~= head + (given(p.decimals) + given(p.value)));
        },
        ConversionType::Shl | ConversionType::Shr => {
            push_given(&mut args, params.value);
            push_given(&mut args, params.bits);
            push_given_with(&mut args, "--base-in", params.base_in);
            push_given_with(&mut args, "--base-out", params.base_out);
            assert(texts(args@) =~= head + (given(p.value) + given(p.bits) + given_with(
                "--base-in"@,
                p.base_in,
            ) + given_with("--base-out"@, p.base_out)));
        },
        ConversionType::ToUnit
        | ConversionType::ToWei
        | ConversionType::FromWei
        | ConversionType::ParseUnits
        | ConversionType::FormatUnits => {
            push_given(&mut args, params.value);
            push_given(&mut args, params.unit);
            assert(texts(args@) =~= head + (given(p.value) + given(p.unit)));
        },
        ConversionType::ToHex | ConversionType::ToDec => {
            push_given(&mut args, params.value);
            push_given_with(&mut args, "--base-in", params.base_in);
            assert(texts(args@) =~= head + (given(p.value) + given_with("--base-in"@, p.base_in)));
        },
        ConversionType::ToBase => {
            push_given(&mut args, params.value);
            push_given(&mut args, params.base);
            push_given_with(&mut args, "--base-in", params.base_in);
            assert(texts(args@) =~= head + (given(p.value) + given(p.base) + given_with(
                "--base-in"@,
                p.base_in,
            )));
        },
        ConversionType::FromRlp => {
            push_given(&mut args, params.value);
            let as_int = match params.as_int {
                Some(b) => b,
                None => false,
            };
            if as_int {
                push_given(&mut args, Some(String::from_str("--as-int")));
            }
            assert(texts(args@) =~= head + (given(p.value) + (if p.as_int == Some(true) {
                seq!["--as-int"@]
            } else {
                Seq::empty()
            })));
        },
    }
    Ok(CommandSpec { command: String::from_str("cast"), program: String::from_str(cast_path), args })
}

/// The subcommand that an invocation of the call tool names: its first
/// argument, or nothing where it has none.
pub open spec fn subcommand_of(spec: Invocation) -> Seq<char> {
    if spec.args.len() > 0 {
        spec.args[0]
    } else {
        Seq::empty()
    }
}

/// The error for a conversion whose program could not be started.
pub fn conversion_spawn_failure(spec: &CommandSpec) -> (e: ConversionError)
    ensures
        e@ == ConversionFailure::SpawnFailure(subcommand_of(spec@)),
{
    if spec.args.len() > 0 {
        ConversionError::SpawnFailure(spec.args[0].clone())
    } else {
        ConversionError::SpawnFailure(String::new())
    }
}

/// What a finished conversion amounts to: standard output followed by
/// standard error, trimmed, as the result where the call tool succeeded and
/// as the error where it did not.
pub fn conversion_result(stdout: &str, stderr: &str, success: bool) -> (r: Result<
    String,
    ConversionError,
>)
    ensures
        match r {
            Ok(text) => success && text@ == trim(stdout@ + stderr@),
            Err(e) => !success && e@ == ConversionFailure::Failed(trim(stdout@ + stderr@)),
        },
{
    let combined = concat(stdout, stderr);
    let text = String::from_str(trimmed(combined.as_str()));
    if success {
        Ok(text)
    } else {
        Err(ConversionError::Failed(text))
    }
}

/// Every conversion, in the order in which the tool lists them.
pub open spec fn all_conversions() -> Seq<ConversionType> {
    seq![
        ConversionType::MaxInt,
        ConversionType::MinInt,
        ConversionType::MaxUint,
        ConversionType::AddressZero,
        ConversionType::HashZero,
        ConversionType::FromUtf8,
        ConversionType::ToAscii,
        ConversionType::ToUtf8,
        ConversionType::FromBin,
        ConversionType::ConcatHex,
        ConversionType::ToHexdata,
        ConversionType::ToHex,
        ConversionType::ToDec,
        ConversionType::ToBase,
        ConversionType::ToCheckSumAddress,
        ConversionType::ToBytes32,
        ConversionType::ToUint256,
        ConversionType::ToInt256,
        ConversionType::FromFixedPoint,
        ConversionType::ToFixedPoint,
        ConversionType::Shl,
        ConversionType::Shr,
        ConversionType::ToUnit,
        ConversionType::ParseUnits,
        ConversionType::FormatUnits,
        ConversionType::ToWei,
        ConversionType::FromWei,
        ConversionType::ToRlp,
        ConversionType::FromRlp,
    ]
}

/// The subcommands of the conversions, as JSON strings.
pub open spec fn conversion_names(conversions: Seq<ConversionType>) -> Seq<Json> {
    conversions.map_values(|t: ConversionType| Json::Text(t.subcommand_text()))
}

/// What the conversion tool says of itself.
pub const CAST_CONVERT_ABOUT: &'static str =
    "Unified tool for all cast conversion operations. Supports: number conversions (hex/dec/base), ETH unit conversions (wei/gwei/ether), text encoding (UTF8/ASCII/hex), address formatting (checksum), integer types (uint256/int256), fixed-point arithmetic, bit shifting, RLP encoding/decoding, and more. Specify the conversion_type and provide the required parameters for that conversion.";

/// The conversion tool: one entry for every conversion. Its first parameter
/// names the conversion and admits exactly the subcommands of the
/// conversions; only that parameter is required.
pub open spec fn conversion_tool_view() -> ToolView {
    tool_view(
        "cast_convert"@,
        CAST_CONVERT_ABOUT@,
        seq![
            Member {
                key: "conversion_type"@,
                value: Json::Object(
                    seq![
                        Member { key: "type"@, value: Json::Text("string"@) },
                        Member {
                            key: "description"@,
                            value: Json::Text("The type of conversion to perform"@),
                        },
                        Member {
                            key: "enum"@,
                            value: Json::Array(conversion_names(all_conversions())),
                        },
                    ],
                ),
            },
            parameter("value"@, "string"@, "Primary input value (for most conversions)"@),
            Member {
                key: "values"@,
                value: Json::Object(
                    seq![
                        Member { key: "type"@, value: Json::Text("array"@) },
                        Member {
                            key: "items"@,
                            value: Json::Object(
                                seq![Member { key: "type"@, value: Json::Text("string"@) }],
                            ),
                        },
                        Member {
                            key: "description"@,
                            value: Json::Text("Array of values (for concat-hex)"@),
                        },
                    ],
                ),
            },
            parameter(
                "type"@,
                "string"@,
                "Integer type (for max-int, min-int, max-uint). Examples: int8, int256, uint256"@,
            ),
            parameter("decimals"@, "string"@, "Number of decimals (for fixed-point conversions)"@),
            parameter("unit"@, "string"@, "Unit for ETH conversions (wei, gwei, ether)"@),
            parameter("base"@, "string"@, "Target base for base conversions (2-64)"@),
            parameter("base_in"@, "string"@, "Input base for base conversions (2-64)"@),
            parameter("base_out"@, "string"@, "Output base for shift operations (2-64)"@),
            parameter("bits"@, "string"@, "Number of bits for shift operations"@),
            parameter("chain_id"@, "number"@, "Chain ID for EIP-1191 address encoding"@),
            parameter("as_int"@, "boolean"@, "Decode RLP as integer (for from-rlp)"@),
        ],
        seq!["conversion_type"@],
    )
}

/// The subcommands of all conversions, as JSON strings.
fn conversion_name_values() -> (r: Vec<JsonValue>)
    ensures
        views(r@) == conversion_names(all_conversions()),
{
    let all: [ConversionType; 29] = [
        ConversionType::MaxInt,
        ConversionType::MinInt,
        ConversionType::MaxUint,
        ConversionType::AddressZero,
        ConversionType::HashZero,
        ConversionType::FromUtf8,
        ConversionType::ToAscii,
        ConversionType::ToUtf8,
        ConversionType::FromBin,
        ConversionType::ConcatHex,
        ConversionType::ToHexdata,
        ConversionType::ToHex,
        ConversionType::ToDec,
        ConversionType::ToBase,
        ConversionType::ToCheckSumAddress,
        ConversionType::ToBytes32,
        ConversionType::ToUint256,
        ConversionType::ToInt256,
        ConversionType::FromFixedPoint,
        ConversionType::ToFixedPoint,
        ConversionType::Shl,
        ConversionType::Shr,
        ConversionType::ToUnit,
        ConversionType::ParseUnits,
        ConversionType::FormatUnits,
        ConversionType::ToWei,
        ConversionType::FromWei,
        ConversionType::ToRlp,
        ConversionType::FromRlp,
    ];
    let mut r: Vec<JsonValue> = Vec::new();
    let mut i: usize = 0;
    while i < 29
        invariant
            i <= 29,
            all@.len() == 29,
            r@.len() == i,
            forall|k: int| 0 <= k < i ==> r@[k]@ == Json::Text(all@[k].subcommand_text()),
        decreases 29 - i,
    {
        r.push(text_json(all[i].subcommand()));
        i += 1;
    }
    r
}

/// The conversion tool.
pub fn get_conversion_tool() -> (r: Tool)
    ensures
        r@ == conversion_tool_view(),
{
    let mut kind: Vec<JsonEntry> = Vec::new();
    kind.push(entry("type", text_json("string")));
    kind.push(entry("description", text_json("The type of conversion to perform")));
    let names = conversion_name_values();
    proof {
        lemma_array_view(names);
    }
    kind.push(entry("enum", JsonValue::Array(names)));

    let mut item: Vec<JsonEntry> = Vec::new();
    item.push(entry("type", text_json("string")));
    let mut list: Vec<JsonEntry> = Vec::new();
    list.push(entry("type", text_json("array")));
    list.push(entry("items", object_json(item)));
    list.push(entry("description", text_json("Array of values (for concat-hex)")));

    let mut properties: Vec<JsonEntry> = Vec::new();
    properties.push(entry("conversion_type", object_json(kind)));
    properties.push(
        parameter_entry("value", "string", "Primary input value (for most conversions)"),
    );
    properties.push(entry("values", object_json(list)));
    properties.push(
        parameter_entry(
            "type",
            "string",
            "Integer type (for max-int, min-int, max-uint). Examples: int8, int256, uint256",
        ),
    );
    properties.push(
        parameter_entry("decimals", "string", "Number of decimals (for fixed-point conversions)"),
    );
    properties.push(parameter_entry("unit", "string", "Unit for ETH conversions (wei, gwei, ether)"));
    properties.push(parameter_entry("base", "string", "Target base for base conversions (2-64)"));
    properties.push(parameter_entry("base_in", "string", "Input base for base conversions (2-64)"));
    properties.push(
        parameter_entry("base_out", "string", "Output base for shift operations (2-64)"),
    );
    properties.push(parameter_entry("bits", "string", "Number of bits for shift operations"));
    properties.push(
        parameter_entry("chain_id", "number", "Chain ID for EIP-1191 address encoding"),
    );
    properties.push(parameter_entry("as_int", "boolean", "Decode RLP as integer (for from-rlp)"));
    let required: [&str; 1] = ["conversion_type"];
    proof {
        let wanted = conversion_tool_view().input_schema[1].value->Object_0;
        assert(members(kind@) =~= wanted[0].value->Object_0);
        assert(members(item@) =~= seq![Member { key: "type"@, value: Json::Text("string"@) }]);
        assert(members(list@) =~= wanted[2].value->Object_0);
        assert(members(properties@) =~= wanted);
        assert(slices(required@) =~= seq!["conversion_type"@]);
    }
    make_tool("cast_convert", CAST_CONVERT_ABOUT, properties, &required)
}

} // verus!
