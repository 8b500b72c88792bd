use ctranslate2_rs::names::{BatchType, ComputeType, Device};

#[test]
fn device_names_round_trip() {
    assert_eq!(Device::CPU.to_string(), "cpu");
    assert_eq!(Device::CUDA.to_string(), "cuda");
    assert_eq!(Device::from_str("cpu").unwrap(), Device::CPU);
    assert_eq!(Device::from_str("cuda").unwrap(), Device::CUDA);
}

#[test]
fn device_parse_ignores_case() {
    assert_eq!(Device::from_str("CPU").unwrap(), Device::CPU);
    assert_eq!(Device::from_str("Cuda").unwrap(), Device::CUDA);
}

#[test]
fn device_parse_unknown() {
    let e = Device::from_str("TPU").unwrap_err();
    assert_eq!(e.0, "Unknown device TPU");
    assert!(Device::from_str("").is_err());
}

#[test]
fn device_from_lowercase_is_exact() {
    assert_eq!(Device::from_lowercase("cpu"), Some(Device::CPU));
    assert_eq!(Device::from_lowercase("CPU"), None);
}

#[test]
fn compute_type_names() {
    let all = [
        (ComputeType::Default, "default"),
        (ComputeType::Auto, "auto"),
        (ComputeType::Float32, "float32"),
        (ComputeType::Int8, "int8"),
        (ComputeType::Int8Float16, "int8_float16"),
        (ComputeType::Int16, "int16"),
        (ComputeType::Float16, "float16"),
    ];
    for (c, name) in all {
        assert_eq!(c.to_string(), name);
        assert_eq!(ComputeType::from_str(name).unwrap(), c);
        assert_eq!(ComputeType::from_str(&name.to_uppercase()).unwrap(), c);
    }
}

#[test]
fn compute_type_float_alias() {
    assert_eq!(ComputeType::from_str("float").unwrap(), ComputeType::Float32);
    assert_eq!(ComputeType::from_str("FLOAT").unwrap(), ComputeType::Float32);
}

#[test]
fn compute_type_unknown() {
    let e = ComputeType::from_str("bfloat16").unwrap_err();
    assert_eq!(e.0, "Unknown compute type bfloat16");
}

#[test]
fn batch_type_names() {
    assert_eq!(BatchType::Examples.to_string(), "examples");
    assert_eq!(BatchType::Tokens.to_string(), "tokens");
    assert_eq!(BatchType::from_str("Examples").unwrap(), BatchType::Examples);
    assert_eq!(BatchType::from_str("TOKENS").unwrap(), BatchType::Tokens);
    assert_eq!(BatchType::from_str("words").unwrap_err().0, "Unknown batch type words");
}
