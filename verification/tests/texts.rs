use solace_session::config::FlowConfig;
use solace_session::ctext::CText;
use solace_session::decimal::decimal_text;
use solace_session::properties::{
    deprovision_array, flow_array, provision_array, PropertyArray,
    PROVISION_FLAGS_IGNORE_EXIST_ERRORS, PROVISION_FLAGS_WAITFORCONFIRM,
};
use solace_session::return_code::SolClientReturnCode;

fn entries(array: &PropertyArray) -> Vec<Option<String>> {
    let mut list = Vec::new();
    for i in 0..array.len() {
        list.push(array.entry(i).map(|b| String::from_utf8(b.to_vec()).unwrap()));
    }
    list
}

fn text(s: &str) -> Option<String> {
    Some(s.to_string())
}

#[test]
fn return_codes_round_trip() {
    for raw in -300..300 {
        assert_eq!(SolClientReturnCode::from_raw(raw).to_raw(), raw);
    }
    assert_eq!(SolClientReturnCode::from_raw(i32::MIN).to_raw(), i32::MIN);
    assert_eq!(SolClientReturnCode::from_raw(i32::MAX).to_raw(), i32::MAX);
}

#[test]
fn only_zero_is_ok() {
    for raw in -20..20 {
        assert_eq!(SolClientReturnCode::from_raw(raw).is_ok(), raw == 0);
    }
}

#[test]
fn documented_return_codes() {
    assert_eq!(SolClientReturnCode::from_raw(0), SolClientReturnCode::Success);
    assert_eq!(SolClientReturnCode::from_raw(1), SolClientReturnCode::WouldBlock);
    assert_eq!(SolClientReturnCode::from_raw(2), SolClientReturnCode::InProgress);
    assert_eq!(SolClientReturnCode::from_raw(3), SolClientReturnCode::NotReady);
    assert_eq!(SolClientReturnCode::from_raw(4), SolClientReturnCode::EndOfStream);
    assert_eq!(SolClientReturnCode::from_raw(5), SolClientReturnCode::NotFound);
    assert_eq!(SolClientReturnCode::from_raw(6), SolClientReturnCode::NoEvent);
    assert_eq!(SolClientReturnCode::from_raw(7), SolClientReturnCode::Incomplete);
    assert_eq!(SolClientReturnCode::from_raw(8), SolClientReturnCode::Rollback);
    assert_eq!(SolClientReturnCode::from_raw(-1), SolClientReturnCode::Fail);
    assert_eq!(SolClientReturnCode::from_raw(9), SolClientReturnCode::Other(9));
    assert_eq!(SolClientReturnCode::from_raw(-2), SolClientReturnCode::Other(-2));
}

#[test]
fn text_without_nul_is_taken() {
    let taken = CText::new(b"a/b/c".to_vec()).unwrap();
    assert_eq!(taken.as_bytes(), b"a/b/c");
    assert_eq!(CText::new(Vec::new()).unwrap().as_bytes(), b"");
}

#[test]
fn first_nul_is_reported() {
    let error = CText::new(vec![b'a', b'b', 0, b'c', 0]).unwrap_err();
    assert_eq!(error.nul_position(), 2);
    assert_eq!(error.into_vec(), vec![b'a', b'b', 0, b'c', 0]);
    assert_eq!(CText::new(vec![0]).unwrap_err().nul_position(), 0);
}

#[test]
fn lossy_text() {
    assert_eq!(CText::new(b"queue".to_vec()).unwrap().to_string_lossy(), "queue");
    let accented = "caf\u{e9}";
    assert_eq!(CText::new(accented.as_bytes().to_vec()).unwrap().to_string_lossy(), accented);
    let broken = CText::new(vec![b'q', 0xff, b'r']).unwrap();
    assert_eq!(broken.to_string_lossy(), "q\u{fffd}r");
    let cut = CText::new(vec![b'q', 0xe2, 0x82]).unwrap();
    assert_eq!(cut.to_string_lossy(), "q\u{fffd}");
}

#[test]
fn decimal_digits() {
    for n in [0, 1, 9, 10, 60, 99, 100, 255, 1000, 1_000_000_007, u32::MAX] {
        assert_eq!(decimal_text(n).as_bytes(), n.to_string().as_bytes());
    }
}

#[test]
fn decimal_digits_read_back() {
    for n in 0..2000 {
        let digits = String::from_utf8(decimal_text(n).as_bytes().to_vec()).unwrap();
        assert_eq!(digits.parse::<u32>().unwrap(), n);
    }
}

#[test]
fn nothing_is_configured_by_default() {
    let config = FlowConfig::default();
    assert_eq!(config.window_size, None);
    assert_eq!(config.ack_timer_ms, None);
    assert_eq!(config.ack_threshold, None);
}

#[test]
fn queue_is_created_by_name() {
    let queue = CText::new(b"orders".to_vec()).unwrap();
    assert_eq!(
        entries(&provision_array(&queue)),
        vec![text("ENDPOINT_ID"), text("2"), text("ENDPOINT_NAME"), text("orders"), None],
    );
}

#[test]
fn queue_is_removed_by_what_it_was_created_with() {
    let queue = CText::new(b"orders".to_vec()).unwrap();
    assert_eq!(
        entries(&deprovision_array(&queue)),
        vec![text("ENDPOINT_ID"), text("2"), text("ENDPOINT_NAME"), text("orders"), None],
    );
    assert_eq!(entries(&deprovision_array(&queue)), entries(&provision_array(&queue)));
}

#[test]
fn flow_with_nothing_configured() {
    let queue = CText::new(b"orders".to_vec()).unwrap();
    assert_eq!(
        entries(&flow_array(&queue, FlowConfig::default())),
        vec![
            text("FLOW_BIND_ENTITY_ID"),
            text("2"),
            text("FLOW_ACKMODE"),
            text("1"),
            text("FLOW_BIND_NAME"),
            text("orders"),
            None,
        ],
    );
}

#[test]
fn flow_with_everything_configured() {
    let queue = CText::new(b"orders".to_vec()).unwrap();
    let config =
        FlowConfig { window_size: Some(255), ack_timer_ms: Some(1000), ack_threshold: Some(60) };
    assert_eq!(
        entries(&flow_array(&queue, config)),
        vec![
            text("FLOW_BIND_ENTITY_ID"),
            text("2"),
            text("FLOW_ACKMODE"),
            text("1"),
            text("FLOW_BIND_NAME"),
            text("orders"),
            text("FLOW_WINDOWSIZE"),
            text("255"),
            text("FLOW_ACK_TIMER_MS"),
            text("1000"),
            text("FLOW_ACK_THRESHOLD"),
            text("60"),
            None,
        ],
    );
}

#[test]
fn flow_with_one_setting() {
    let queue = CText::new(b"q".to_vec()).unwrap();
    let config = FlowConfig { ack_timer_ms: Some(0), ..FlowConfig::default() };
    let list = entries(&flow_array(&queue, config));
    assert_eq!(list.len(), 9);
    assert_eq!(list[6], text("FLOW_ACK_TIMER_MS"));
    assert_eq!(list[7], text("0"));
    assert_eq!(list[8], None);
}

#[test]
fn different_configurations_make_different_flows() {
    let queue = CText::new(b"q".to_vec()).unwrap();
    let window = FlowConfig { window_size: Some(7), ..FlowConfig::default() };
    let threshold = FlowConfig { ack_threshold: Some(7), ..FlowConfig::default() };
    assert_ne!(entries(&flow_array(&queue, window)), entries(&flow_array(&queue, threshold)));
}

#[test]
fn property_lists_are_pairs_before_one_null() {
    let queue = CText::new(b"FLOW_WINDOWSIZE".to_vec()).unwrap();
    for window_size in [None, Some(1)] {
        for ack_timer_ms in [None, Some(2)] {
            for ack_threshold in [None, Some(3)] {
                let config = FlowConfig { window_size, ack_timer_ms, ack_threshold };
                let list = entries(&flow_array(&queue, config));
                assert_eq!(list.len() % 2, 1);
                assert_eq!(list.iter().position(|e| e.is_none()), Some(list.len() - 1));
            }
        }
    }
}

#[test]
fn provision_flag_values() {
    assert_eq!(PROVISION_FLAGS_WAITFORCONFIRM | PROVISION_FLAGS_IGNORE_EXIST_ERRORS, 3);
}
