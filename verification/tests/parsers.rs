use vr_launcher::battery_monitor::{
    record_level, AndroidBatteryStats, BatteryChargeSource, BatteryField, BatteryHealth,
    BatteryParseError, BatteryStatus, CHARGE_HISTORY_SAMPLES,
};
use vr_launcher::dev::proton_sentinel::ProtonSentinel;
use vr_launcher::env_map::EnvMap;
use vr_launcher::number::{parse_signed, parse_unsigned, to_decimal};
use vr_launcher::text::{
    chars_of, contains_exec, ends_with_exec, find_char_exec, join_exec, lines_exec, replace_exec,
    split_exec, split_once_exec, string_of, trim_exec, trim_matches_exec,
};

fn c(s: &str) -> Vec<char> {
    s.chars().collect()
}

fn s(v: &Vec<char>) -> String {
    v.iter().collect()
}

fn strs(v: &Vec<Vec<char>>) -> Vec<String> {
    v.iter().map(s).collect()
}

const DUMP: &str = "Current Battery Service state:\n  AC powered: false\n  USB powered: true\n  Wireless powered: false\n  Dock powered: false\n  Max charging current: 500000\n  Max charging voltage: 5000000\n  Charge counter: 2918000\n  status: 2\n  health: 2\n  present: true\n  level: 87\n  scale: 100\n  voltage: 4321\n  temperature: 298\n  technology: Li-ion\n";

#[test]
fn battery_dump_is_read() {
    let stats = AndroidBatteryStats::try_parse(DUMP).unwrap();
    assert_eq!(
        stats,
        AndroidBatteryStats {
            power_source: BatteryChargeSource::USB,
            is_weak_charger: false,
            max_charge_current_ma: 500,
            max_charge_voltage_mv: 5000,
            charge_counter: 2918000,
            status: BatteryStatus::Charging,
            health: BatteryHealth::Good,
            present: true,
            level: 87,
            scale: 100,
            voltage: 4321,
            temperature: 298,
            technology: "Li-ion".to_string(),
        }
    );
}

#[test]
fn battery_source_priority_and_defaults() {
    let stats = AndroidBatteryStats::try_parse("").unwrap();
    assert_eq!(stats.power_source, BatteryChargeSource::Battery);
    assert_eq!(stats.status, BatteryStatus::Unknown);
    assert_eq!(stats.health, BatteryHealth::Unknown);
    assert_eq!(stats.technology, "");
    let stats = AndroidBatteryStats::try_parse("dock powered: TRUE\nwireless powered: true").unwrap();
    assert_eq!(stats.power_source, BatteryChargeSource::Wireless);
    let stats =
        AndroidBatteryStats::try_parse("Dock powered: true\nAC powered: true\nUSB powered: true").unwrap();
    assert_eq!(stats.power_source, BatteryChargeSource::AC);
    let stats = AndroidBatteryStats::try_parse("dock powered: true").unwrap();
    assert_eq!(stats.power_source, BatteryChargeSource::Dock);
    let stats = AndroidBatteryStats::try_parse("status: 9\nhealth: 7\nlevel: 1\nlevel: 2").unwrap();
    assert_eq!(stats.status, BatteryStatus::Unknown);
    assert_eq!(stats.health, BatteryHealth::Cold);
    assert_eq!(stats.level, 2);
}

#[test]
fn battery_errors() {
    assert_eq!(
        AndroidBatteryStats::try_parse("present: yes"),
        Err(BatteryParseError::InvalidBool(BatteryField::Present))
    );
    assert_eq!(
        AndroidBatteryStats::try_parse("level: 256"),
        Err(BatteryParseError::InvalidNumber(BatteryField::Level))
    );
    assert_eq!(
        AndroidBatteryStats::try_parse("level: 1\nvoltage: -1\npresent: yes"),
        Err(BatteryParseError::InvalidNumber(BatteryField::Voltage))
    );
    assert_eq!(
        AndroidBatteryStats::try_parse("status: 70000"),
        Err(BatteryParseError::InvalidNumber(BatteryField::Status))
    );
    assert_eq!(AndroidBatteryStats::parse_bool("True"), Some(true));
    assert_eq!(AndroidBatteryStats::parse_bool("FALSE"), Some(false));
    assert_eq!(AndroidBatteryStats::parse_bool("1"), None);
    assert_eq!(BatteryHealth::from(3), BatteryHealth::Overheat);
    assert_eq!(BatteryHealth::from(0), BatteryHealth::Unknown);
    assert_eq!(BatteryStatus::from(5), BatteryStatus::Full);
}

#[test]
fn charge_history_is_bounded() {
    let mut h: Vec<u8> = Vec::new();
    for i in 0..300u32 {
        record_level(&mut h, (i % 100) as u8);
    }
    assert_eq!(h.len(), CHARGE_HISTORY_SAMPLES + 1);
    assert_eq!(*h.last().unwrap(), 99);
    assert_eq!(h[0], ((300 - 129) % 100) as u8);
}

#[test]
fn unsigned_numbers() {
    assert_eq!(parse_unsigned(&c("0"), false, 10), Some(0));
    assert_eq!(parse_unsigned(&c("+42"), false, 100), Some(42));
    assert_eq!(parse_unsigned(&c("007"), false, 100), Some(7));
    assert_eq!(parse_unsigned(&c("101"), false, 100), None);
    assert_eq!(parse_unsigned(&c("100"), false, 100), Some(100));
    assert_eq!(parse_unsigned(&c(""), false, 100), None);
    assert_eq!(parse_unsigned(&c("+"), false, 100), None);
    assert_eq!(parse_unsigned(&c("-1"), false, 100), None);
    assert_eq!(parse_unsigned(&c("1 "), false, 100), None);
    assert_eq!(parse_unsigned(&c("ff"), false, 1000), None);
    assert_eq!(parse_unsigned(&c("ff"), true, 1000), Some(255));
    assert_eq!(parse_unsigned(&c("2833"), true, 0xffff), Some(0x2833));
    assert_eq!(parse_unsigned(&c("Ab"), true, 0xffff), Some(0xab));
    assert_eq!(parse_unsigned(&c("10000"), true, 0xffff), None);
    assert_eq!(parse_unsigned(&c("18446744073709551615"), false, u64::MAX), Some(u64::MAX));
    assert_eq!(parse_unsigned(&c("18446744073709551616"), false, u64::MAX), None);
    assert_eq!(parse_unsigned(&c("99999999999999999999999"), false, u64::MAX), None);
}

#[test]
fn signed_numbers() {
    assert_eq!(parse_signed(&c("-52"), -32768, 32767), Some(-52));
    assert_eq!(parse_signed(&c("+52"), -32768, 32767), Some(52));
    assert_eq!(parse_signed(&c("-32768"), -32768, 32767), Some(-32768));
    assert_eq!(parse_signed(&c("-32769"), -32768, 32767), None);
    assert_eq!(parse_signed(&c("32768"), -32768, 32767), None);
    assert_eq!(parse_signed(&c("-0"), -32768, 32767), Some(0));
    assert_eq!(parse_signed(&c("-"), -32768, 32767), None);
    assert_eq!(parse_signed(&c("--1"), -32768, 32767), None);
    assert_eq!(parse_signed(&c("-9223372036854775808"), i64::MIN, i64::MAX), Some(i64::MIN));
    assert_eq!(parse_signed(&c("9223372036854775807"), i64::MIN, i64::MAX), Some(i64::MAX));
    assert_eq!(parse_signed(&c("9223372036854775808"), i64::MIN, i64::MAX), None);
}

#[test]
fn decimal_text() {
    assert_eq!(s(&to_decimal(0)), "0");
    assert_eq!(s(&to_decimal(9)), "9");
    assert_eq!(s(&to_decimal(10)), "10");
    assert_eq!(s(&to_decimal(5555)), "5555");
    assert_eq!(s(&to_decimal(u64::MAX)), "18446744073709551615");
}

#[test]
fn text_helpers() {
    assert_eq!(s(&chars_of("héllo")), "héllo");
    assert_eq!(string_of(&c("abc")), "abc");
    assert_eq!(strs(&split_exec(&c("a, b, , c"), &c(", "))), vec!["a", "b", "", "c"]);
    assert_eq!(strs(&split_exec(&c(""), &c(","))), vec![""]);
    assert_eq!(strs(&split_exec(&c("aaa"), &c("aa"))), vec!["", "a"]);
    assert_eq!(strs(&split_exec(&c(",a,"), &c(","))), vec!["", "a", ""]);
    assert_eq!(strs(&split_exec(&c("abc"), &c(""))), vec!["abc"]);
    assert_eq!(s(&join_exec(&vec![c("a"), c("b"), c("c")], &c("--"))), "a--b--c");
    assert_eq!(s(&join_exec(&vec![], &c("-"))), "");
    assert_eq!(s(&replace_exec(&c("5180MHz"), &c("MHz"), &c(""))), "5180");
    assert_eq!(s(&replace_exec(&c("a\\b\\c"), &c("\\"), &c("/"))), "a/b/c");
    assert_eq!(s(&trim_exec(&c("  \t a b \r\n"))), "a b");
    assert_eq!(s(&trim_exec(&c("   "))), "");
    assert_eq!(s(&trim_matches_exec(&c("\"\"Home\""), '"')), "Home");
    assert_eq!(s(&trim_matches_exec(&c("\"\""), '"')), "");
    assert_eq!(strs(&lines_exec(&c("a\r\nb\n\nc"))), vec!["a", "b", "", "c"]);
    assert_eq!(strs(&lines_exec(&c("a\n"))), vec!["a"]);
    assert_eq!(strs(&lines_exec(&c("a\r"))), vec!["a\r"]);
    assert_eq!(strs(&lines_exec(&c(""))), Vec::<String>::new());
    assert_eq!(strs(&lines_exec(&c("\n"))), vec![""]);
    assert_eq!(find_char_exec(&c("a=b=c"), '='), Some(1));
    assert_eq!(find_char_exec(&c("abc"), '='), None);
    let (k, v) = split_once_exec(&c("a=b=c"), '=').unwrap();
    assert_eq!((s(&k), s(&v)), ("a".to_string(), "b=c".to_string()));
    assert!(contains_exec(&c("a wivrn sink"), &c("wivrn")));
    assert!(!contains_exec(&c("wivr"), &c("wivrn")));
    assert!(contains_exec(&c("x"), &c("")));
    assert!(ends_with_exec(&c("/opt/proton"), &c("/proton")));
    assert!(!ends_with_exec(&c("proton"), &c("/proton")));
}

#[test]
fn env_map_behaves_like_a_map() {
    let mut m = EnvMap::new();
    assert!(m.is_empty());
    m.insert("A".to_string(), "1".to_string());
    m.insert("B".to_string(), "2".to_string());
    m.insert("A".to_string(), "3".to_string());
    assert_eq!(m.len(), 2);
    assert_eq!(m.get("A"), Some(&"3".to_string()));
    assert_eq!(m.get("B"), Some(&"2".to_string()));
    assert_eq!(m.get("C"), None);
    assert!(m.contains_key("B"));
    m.remove("B");
    assert!(!m.contains_key("B"));
    m.remove("B");
    assert_eq!(m.len(), 1);
    let mut n = EnvMap::new();
    n.insert("A".to_string(), "9".to_string());
    n.insert("Z".to_string(), "8".to_string());
    m.merge(&n);
    assert_eq!(m.get("A"), Some(&"9".to_string()));
    assert_eq!(m.get("Z"), Some(&"8".to_string()));
    m.insert_all(vec![("Q".to_string(), "1".to_string()), ("Q".to_string(), "2".to_string())]);
    assert_eq!(m.get("Q"), Some(&"2".to_string()));
    assert_eq!(m.entry(0).0, "A");
}

#[test]
fn proton_sentinel_recognises_proton_commands() {
    let cmd = |v: &[&str]| v.iter().map(|s| s.to_string()).collect::<Vec<String>>();
    assert!(ProtonSentinel::is_proton_command(&cmd(&["python3", "/opt/Proton 9/proton", "run"])));
    assert!(!ProtonSentinel::is_proton_command(&cmd(&["python3"])));
    assert!(!ProtonSentinel::is_proton_command(&cmd(&["python3", "proton"])));
    assert_eq!(ProtonSentinel::name_of("PATH=/bin"), Some("PATH".to_string()));
    assert_eq!(ProtonSentinel::name_of("novalue"), None);
    assert_eq!(ProtonSentinel::interval_millis(), 3000);
}

#[test]
fn signed_numbers_are_written_in_decimal() {
    assert_eq!(s(&vr_launcher::number::to_signed_decimal(0)), "0");
    assert_eq!(s(&vr_launcher::number::to_signed_decimal(-1)), "-1");
    assert_eq!(s(&vr_launcher::number::to_signed_decimal(42)), "42");
    assert_eq!(
        s(&vr_launcher::number::to_signed_decimal(i64::MAX)),
        "9223372036854775807"
    );
    assert_eq!(
        s(&vr_launcher::number::to_signed_decimal(i64::MIN)),
        "-9223372036854775808"
    );
}
