use bank_statements::config::{deserialize, Account, Config, ConfigError, Extraction};
use bank_statements::dates::MonthDate;
use serde_yaml::Value;

fn month(year: i32, month: u32) -> MonthDate {
    MonthDate::new(year, month).unwrap()
}

fn text(v: &Value) -> String {
    v.as_str().unwrap().to_string()
}

/// Reads a configuration document through the library's constructors.
fn parse(doc: &str) -> Config {
    let root: Value = serde_yaml::from_str(doc).unwrap();
    let ssn = root.get("ssn").map(text);
    let mut extractions = Vec::new();
    for e in root["extractions"].as_sequence().unwrap() {
        let mut accounts = Vec::new();
        for a in e["accounts"].as_sequence().unwrap() {
            accounts.push(Account { id: text(&a["id"]), name: a.get("name").map(text) });
        }
        extractions.push(Extraction::new(e["from"].as_str().unwrap(), e["to"].as_str().unwrap(), accounts).unwrap());
    }
    Config { ssn, extractions }
}

#[test]
fn basic() {
    let config_str = "
ssn: 00000000000
extractions:
  - from: 01/2020
    to: 01/2021
    accounts:
    - id: 1234.56.78901
      name: test
";
    let config = Config {
        ssn: Some("00000000000".to_string()),
        extractions: vec![Extraction {
            from: month(2020, 1),
            to: month(2021, 1),
            accounts: vec![Account { id: "1234.56.78901".to_string(), name: Some("test".to_string()) }],
        }],
    };
    assert_eq!(parse(config_str), config);
}

#[test]
fn multiple_accounts() {
    let config_str = "
ssn: 00000000000
extractions:
  - from: 01/2020
    to: 01/2021
    accounts:
    - id: 1234.56.78901
      name: test
    - id: 1234.00.78901
      name: test2
";
    let config = Config {
        ssn: Some("00000000000".to_string()),
        extractions: vec![Extraction {
            from: month(2020, 1),
            to: month(2021, 1),
            accounts: vec![
                Account { id: "1234.56.78901".to_string(), name: Some("test".to_string()) },
                Account { id: "1234.00.78901".to_string(), name: Some("test2".to_string()) },
            ],
        }],
    };
    assert_eq!(parse(config_str), config);
}

#[test]
fn multiple_extractions() {
    let config_str = "
ssn: 00000000000
extractions:
  - from: 01/2020
    to: 01/2021
    accounts:
    - id: 1234.56.78901
      name: test-2020
  - from: 01/2021
    to: 01/2022
    accounts:
    - id: 1234.56.78901
      name: test-2021
";
    let config = Config {
        ssn: Some("00000000000".to_string()),
        extractions: vec![
            Extraction {
                from: month(2020, 1),
                to: month(2021, 1),
                accounts: vec![Account { id: "1234.56.78901".to_string(), name: Some("test-2020".to_string()) }],
            },
            Extraction {
                from: month(2021, 1),
                to: month(2022, 1),
                accounts: vec![Account { id: "1234.56.78901".to_string(), name: Some("test-2021".to_string()) }],
            },
        ],
    };
    assert_eq!(parse(config_str), config);
}

#[test]
fn config_without_ssn() {
    let config = parse("
extractions:
  - from: 03/2021
    to: 11/2021
    accounts:
    - id: acc-1
");
    assert_eq!(config.ssn, None);
    assert_eq!(config.extractions[0].from, month(2021, 3));
    assert_eq!(config.extractions[0].to, month(2021, 11));
    assert_eq!(config.extractions[0].accounts[0].name, None);
}

#[test]
fn month_year_text_is_read() {
    assert_eq!(deserialize("01/2020"), Ok(month(2020, 1)));
    assert_eq!(deserialize("12/1999"), Ok(month(1999, 12)));
    assert_eq!(deserialize("7/2024"), Ok(month(2024, 7)));
}

#[test]
fn bad_month_year_text_is_refused() {
    assert_eq!(deserialize("13/2020"), Err(ConfigError::InvalidDate));
    assert_eq!(deserialize("00/2020"), Err(ConfigError::InvalidDate));
    assert_eq!(deserialize("2020"), Err(ConfigError::InvalidDate));
    assert_eq!(deserialize(""), Err(ConfigError::InvalidDate));
    assert_eq!(deserialize("ab/cdef"), Err(ConfigError::InvalidDate));
}

#[test]
fn extraction_with_bad_bound_is_refused() {
    assert_eq!(Extraction::new("01/2020", "14/2020", vec![]), Err(ConfigError::InvalidDate));
    assert_eq!(Extraction::new("x", "01/2020", vec![]), Err(ConfigError::InvalidDate));
    let e = Extraction::new("02/2020", "05/2021", vec![]).unwrap();
    assert_eq!(e.from, month(2020, 2));
    assert_eq!(e.to, month(2021, 5));
}

#[test]
fn selector_value_drops_dots() {
    let a = Account { id: "1234.56.78901".to_string(), name: None };
    assert_eq!(a.selector_value(), "12345678901");
    let b = Account { id: "..1.".to_string(), name: None };
    assert_eq!(b.selector_value(), "1");
    let c = Account { id: String::new(), name: None };
    assert_eq!(c.selector_value(), "");
    let d = Account { id: "9876".to_string(), name: None };
    assert_eq!(d.selector_value(), "9876");
}
