use foundry_mcp::conversion::conversion_result;
use foundry_mcp::conversion::conversion_spawn_failure;
use foundry_mcp::conversion::execute_conversion;
use foundry_mcp::conversion::ConversionError;
use foundry_mcp::conversion::ConversionParams;
use foundry_mcp::conversion::ConversionType;

fn strings(items: &[&str]) -> Vec<String> {
    items.iter().map(|s| s.to_string()).collect()
}

fn params(conversion_type: &str) -> ConversionParams {
    ConversionParams { conversion_type: conversion_type.to_string(), ..ConversionParams::default() }
}

fn some(s: &str) -> Option<String> {
    Some(s.to_string())
}

fn all_set(conversion_type: &str) -> ConversionParams {
    ConversionParams {
        conversion_type: conversion_type.to_string(),
        value: some("V"),
        values: Some(strings(&["0x01", "0x02"])),
        int_type: some("int8"),
        decimals: some("D"),
        unit: some("U"),
        base: some("B"),
        base_in: some("BI"),
        base_out: some("BO"),
        bits: some("BITS"),
        chain_id: Some(10),
        as_int: Some(true),
    }
}

#[test]
fn test_conversion_type_serialization() {
    let types = vec![
        ("max-int", ConversionType::MaxInt),
        ("from-utf8", ConversionType::FromUtf8),
        ("to-hex", ConversionType::ToHex),
        ("shl", ConversionType::Shl),
    ];

    for (name, expected) in types {
        let parsed: ConversionType = ConversionType::from_name(name).unwrap();
        assert_eq!(format!("{:?}", parsed), format!("{:?}", expected));
    }
}

#[test]
fn test_subcommand_names() {
    assert_eq!(ConversionType::MaxInt.subcommand(), "max-int");
    assert_eq!(ConversionType::FromUtf8.subcommand(), "from-utf8");
    assert_eq!(ConversionType::ToCheckSumAddress.subcommand(), "to-check-sum-address");
    assert_eq!(ConversionType::Shl.subcommand(), "shl");
}

#[test]
fn every_conversion_is_found_under_its_subcommand() {
    let all = [
        ConversionType::MaxInt,
        ConversionType::MinInt,
        ConversionType::MaxUint,
        ConversionType::AddressZero,
        ConversionType::HashZero,
        ConversionType::FromUtf8,
        ConversionType::ToAscii,
        ConversionType::ToUtf8,
        ConversionType::FromBin,
        ConversionType::ConcatHex,
        ConversionType::ToHexdata,
        ConversionType::ToHex,
        ConversionType::ToDec,
        ConversionType::ToBase,
        ConversionType::ToCheckSumAddress,
        ConversionType::ToBytes32,
        ConversionType::ToUint256,
        ConversionType::ToInt256,
        ConversionType::FromFixedPoint,
        ConversionType::ToFixedPoint,
        ConversionType::Shl,
        ConversionType::Shr,
        ConversionType::ToUnit,
        ConversionType::ParseUnits,
        ConversionType::FormatUnits,
        ConversionType::ToWei,
        ConversionType::FromWei,
        ConversionType::ToRlp,
        ConversionType::FromRlp,
    ];
    for conversion in all {
        assert_eq!(ConversionType::from_name(conversion.subcommand()), Some(conversion));
        assert!(!conversion.description().is_empty());
    }
    assert_eq!(ConversionType::from_name("MaxInt"), None);
    assert_eq!(ConversionType::from_name("max_int"), None);
    assert_eq!(ConversionType::from_name(""), None);
    assert_eq!(
        ConversionType::ToHexdata.description(),
        "Normalize input to lowercase 0x-prefixed hex"
    );
}

#[test]
fn unknown_conversion_is_rejected() {
    let result = execute_conversion(params("to-nowhere"), "cast");
    assert_eq!(result, Err(ConversionError::InvalidType("to-nowhere".to_string())));
    assert_eq!(result.unwrap_err().to_string(), "Invalid conversion type: to-nowhere");
}

#[test]
fn each_conversion_reads_its_own_parameters() {
    let args = |name: &str| execute_conversion(all_set(name), "/bin/cast").unwrap().args;
    assert_eq!(args("max-int"), strings(&["max-int", "int8"]));
    assert_eq!(args("min-int"), strings(&["min-int", "int8"]));
    assert_eq!(args("max-uint"), strings(&["max-uint", "int8"]));
    assert_eq!(args("address-zero"), strings(&["address-zero"]));
    assert_eq!(args("hash-zero"), strings(&["hash-zero"]));
    assert_eq!(args("from-bin"), strings(&["from-bin"]));
    assert_eq!(args("from-utf8"), strings(&["from-utf8", "V"]));
    assert_eq!(args("to-rlp"), strings(&["to-rlp", "V"]));
    assert_eq!(args("concat-hex"), strings(&["concat-hex", "0x01", "0x02"]));
    assert_eq!(args("to-check-sum-address"), strings(&["to-check-sum-address", "V", "10"]));
    assert_eq!(args("from-fixed-point"), strings(&["from-fixed-point", "D", "V"]));
    assert_eq!(args("to-fixed-point"), strings(&["to-fixed-point", "D", "V"]));
    assert_eq!(
        args("shl"),
        strings(&["shl", "V", "BITS", "--base-in", "BI", "--base-out", "BO"])
    );
    assert_eq!(
        args("shr"),
        strings(&["shr", "V", "BITS", "--base-in", "BI", "--base-out", "BO"])
    );
    assert_eq!(args("to-unit"), strings(&["to-unit", "V", "U"]));
    assert_eq!(args("parse-units"), strings(&["parse-units", "V", "U"]));
    assert_eq!(args("to-hex"), strings(&["to-hex", "V", "--base-in", "BI"]));
    assert_eq!(args("to-dec"), strings(&["to-dec", "V", "--base-in", "BI"]));
    assert_eq!(args("to-base"), strings(&["to-base", "V", "B", "--base-in", "BI"]));
    assert_eq!(args("from-rlp"), strings(&["from-rlp", "V", "--as-int"]));
}

#[test]
fn unset_parameters_add_nothing() {
    let spec = execute_conversion(params("shl"), "cast").unwrap();
    assert_eq!(spec.command, "cast");
    assert_eq!(spec.program, "cast");
    assert_eq!(spec.args, strings(&["shl"]));
    let spec = execute_conversion(
        ConversionParams { as_int: Some(false), ..params("from-rlp") },
        "/usr/local/bin/cast",
    )
    .unwrap();
    assert_eq!(spec.program, "/usr/local/bin/cast");
    assert_eq!(spec.args, strings(&["from-rlp"]));
    assert_eq!(execute_conversion(params("concat-hex"), "cast").unwrap().args, strings(&["concat-hex"]));
}

#[test]
fn conversion_output_is_trimmed() {
    assert_eq!(conversion_result("0x2a\n", "", true), Ok("0x2a".to_string()));
    assert_eq!(conversion_result("  a \n", " b\n\n", true), Ok("a \n b".to_string()));
    let failed = conversion_result("", "Error: invalid value\n", false);
    assert_eq!(failed, Err(ConversionError::Failed("Error: invalid value".to_string())));
    assert_eq!(failed.unwrap_err().to_string(), "Conversion failed: Error: invalid value");
    let spec = execute_conversion(params("to-wei"), "/nowhere/cast").unwrap();
    assert_eq!(conversion_spawn_failure(&spec), ConversionError::SpawnFailure("to-wei".to_string()));
    assert_eq!(conversion_spawn_failure(&spec).to_string(), "Failed to execute cast to-wei");
}
