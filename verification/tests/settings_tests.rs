use comport::error::ComPortError;
use comport::settings::{
    DataBits, FlowControl, LineConfig, Parity, PortSettings, StopBits, DEFAULT_BAUD_RATE,
    DEFAULT_TIMEOUT_MS,
};

fn settings(data_bits: u8, stop_bits: u8, parity: &str, flow_control: &str) -> PortSettings {
    PortSettings {
        data_bits,
        stop_bits,
        parity: parity.to_string(),
        flow_control: flow_control.to_string(),
        ..PortSettings::default()
    }
}

#[test]
fn default_settings_are_115200_8_n_1() {
    let defaults = PortSettings::default();
    assert_eq!(defaults.baud_rate, 115200);
    assert_eq!(defaults.baud_rate, DEFAULT_BAUD_RATE);
    assert_eq!(defaults.data_bits, 8);
    assert_eq!(defaults.stop_bits, 1);
    assert_eq!(defaults.parity, "None");
    assert_eq!(defaults.flow_control, "None");
    assert_eq!(defaults.timeout_ms, 1000);
    assert_eq!(defaults.timeout_ms, DEFAULT_TIMEOUT_MS);
    assert_eq!(defaults.rts, None);
    assert_eq!(defaults.cts, None);
    assert_eq!(defaults.dtr, None);
    assert_eq!(defaults.dsr, None);
    assert_eq!(defaults.dcd, None);
}

#[test]
fn default_settings_are_valid() {
    assert_eq!(
        PortSettings::default().validate(),
        Ok(LineConfig {
            data_bits: DataBits::Eight,
            stop_bits: StopBits::One,
            parity: Parity::Off,
            flow_control: FlowControl::Off,
        })
    );
}

#[test]
fn every_accepted_value_is_read() {
    assert_eq!(DataBits::from_count(5), Some(DataBits::Five));
    assert_eq!(DataBits::from_count(6), Some(DataBits::Six));
    assert_eq!(DataBits::from_count(7), Some(DataBits::Seven));
    assert_eq!(DataBits::from_count(8), Some(DataBits::Eight));
    assert_eq!(StopBits::from_count(1), Some(StopBits::One));
    assert_eq!(StopBits::from_count(2), Some(StopBits::Two));
    assert_eq!(Parity::from_name("None"), Some(Parity::Off));
    assert_eq!(Parity::from_name("Odd"), Some(Parity::Odd));
    assert_eq!(Parity::from_name("Even"), Some(Parity::Even));
    assert_eq!(FlowControl::from_name("None"), Some(FlowControl::Off));
    assert_eq!(FlowControl::from_name("Software"), Some(FlowControl::Software));
    assert_eq!(FlowControl::from_name("Hardware"), Some(FlowControl::Hardware));
}

#[test]
fn values_outside_the_sets_are_not_read() {
    assert_eq!(DataBits::from_count(4), None);
    assert_eq!(DataBits::from_count(9), None);
    assert_eq!(DataBits::from_count(0), None);
    assert_eq!(StopBits::from_count(0), None);
    assert_eq!(StopBits::from_count(3), None);
    assert_eq!(Parity::from_name("Diagonal"), None);
    assert_eq!(Parity::from_name("none"), None);
    assert_eq!(Parity::from_name(""), None);
    assert_eq!(Parity::from_name("Odd "), None);
    assert_eq!(Parity::from_name("Software"), None);
    assert_eq!(FlowControl::from_name("Magic"), None);
    assert_eq!(FlowControl::from_name("hardware"), None);
    assert_eq!(FlowControl::from_name("Odd"), None);
}

#[test]
fn names_are_compared_character_by_character() {
    assert_eq!(Parity::from_name("Nonè"), None);
    assert_eq!(Parity::from_name("Évén"), None);
    assert_eq!(FlowControl::from_name("Hardwar"), None);
    assert_eq!(FlowControl::from_name("Hardwaree"), None);
}

#[test]
fn valid_settings_give_their_line_configuration() {
    assert_eq!(
        settings(7, 2, "Even", "Hardware").validate(),
        Ok(LineConfig {
            data_bits: DataBits::Seven,
            stop_bits: StopBits::Two,
            parity: Parity::Even,
            flow_control: FlowControl::Hardware,
        })
    );
    assert_eq!(
        settings(5, 1, "Odd", "Software").validate(),
        Ok(LineConfig {
            data_bits: DataBits::Five,
            stop_bits: StopBits::One,
            parity: Parity::Odd,
            flow_control: FlowControl::Software,
        })
    );
}

#[test]
fn invalid_parity_is_named() {
    assert_eq!(
        settings(8, 1, "Diagonal", "None").validate(),
        Err(ComPortError::InvalidConfiguration("Invalid parity: Diagonal".to_string()))
    );
}

#[test]
fn invalid_flow_control_is_named() {
    assert_eq!(
        settings(8, 1, "None", "Magic").validate(),
        Err(ComPortError::InvalidConfiguration("Invalid flow control: Magic".to_string()))
    );
}

#[test]
fn invalid_stop_bits_are_named() {
    assert_eq!(
        settings(8, 3, "None", "None").validate(),
        Err(ComPortError::InvalidConfiguration("Invalid stop bits: 3".to_string()))
    );
    assert_eq!(
        settings(8, 255, "None", "None").validate(),
        Err(ComPortError::InvalidConfiguration("Invalid stop bits: 255".to_string()))
    );
}

#[test]
fn invalid_data_bits_are_named() {
    assert_eq!(
        settings(4, 1, "None", "None").validate(),
        Err(ComPortError::InvalidConfiguration("Invalid data bits: 4".to_string()))
    );
    assert_eq!(
        settings(100, 1, "None", "None").validate(),
        Err(ComPortError::InvalidConfiguration("Invalid data bits: 100".to_string()))
    );
}

#[test]
fn the_first_invalid_field_is_the_one_reported() {
    assert_eq!(
        settings(4, 3, "Diagonal", "Magic").validate(),
        Err(ComPortError::InvalidConfiguration("Invalid parity: Diagonal".to_string()))
    );
    assert_eq!(
        settings(4, 3, "Odd", "Magic").validate(),
        Err(ComPortError::InvalidConfiguration("Invalid flow control: Magic".to_string()))
    );
    assert_eq!(
        settings(4, 3, "Odd", "Software").validate(),
        Err(ComPortError::InvalidConfiguration("Invalid stop bits: 3".to_string()))
    );
}

#[test]
fn baud_rate_and_line_states_are_not_checked() {
    let odd = PortSettings {
        baud_rate: 0,
        timeout_ms: 0,
        rts: Some(true),
        cts: Some(false),
        dtr: Some(true),
        dsr: Some(false),
        dcd: Some(true),
        ..PortSettings::default()
    };
    assert!(odd.validate().is_ok());
    let fast = PortSettings { baud_rate: u32::MAX, timeout_ms: u64::MAX, ..PortSettings::default() };
    assert!(fast.validate().is_ok());
}
