use relayctl::http::{handle_toggle, handle_toggle_params, parse_bool, parse_u8, ToggleResponse};
use relayctl::relay::RelayBank;
use relayctl::render::{dec_string, render_page, render_relays_json};
use relayctl::shared::SharedRelayBank;

fn four_relay_bank() -> RelayBank {
    let mut bank = RelayBank::new();
    bank.add_relay(String::from("lampu kamar"));
    bank.add_relay(String::from("lampu keluarga"));
    bank.add_relay(String::from("lampu ruang tamu"));
    bank.add_relay(String::from("lampu dapur"));
    bank
}

fn all_states(bank: &RelayBank) -> Vec<bool> {
    bank.snapshot().iter().map(|row| row.is_active).collect()
}

#[test]
fn parse_u8_accepts_plain_and_signed_decimals() {
    assert_eq!(parse_u8("0"), Some(0));
    assert_eq!(parse_u8("2"), Some(2));
    assert_eq!(parse_u8("255"), Some(255));
    assert_eq!(parse_u8("007"), Some(7));
    assert_eq!(parse_u8("+12"), Some(12));
}

#[test]
fn parse_u8_rejects_junk_and_overflow() {
    assert_eq!(parse_u8(""), None);
    assert_eq!(parse_u8("+"), None);
    assert_eq!(parse_u8("-1"), None);
    assert_eq!(parse_u8("256"), None);
    assert_eq!(parse_u8("99999999999999999999"), None);
    assert_eq!(parse_u8("12a"), None);
    assert_eq!(parse_u8("abc"), None);
    assert_eq!(parse_u8(" 3"), None);
}

#[test]
fn parse_bool_accepts_exactly_true_and_false() {
    assert_eq!(parse_bool("true"), Some(true));
    assert_eq!(parse_bool("false"), Some(false));
    assert_eq!(parse_bool("TRUE"), None);
    assert_eq!(parse_bool("1"), None);
    assert_eq!(parse_bool(""), None);
}

#[test]
fn toggle_request_drives_the_relay() {
    // POST /relay/toggle?relayId=2&isActive=true answers 200 with an
    // empty body and energizes exactly relay 2.
    let mut bank = four_relay_bank();
    let resp = handle_toggle(&mut bank, "/relay/toggle?relayId=2&isActive=true");
    assert_eq!(resp, ToggleResponse::Success);
    assert_eq!(resp.status(), 200);
    assert_eq!(resp.body(), "");
    assert_eq!(all_states(&bank), vec![false, false, true, false]);
}

#[test]
fn toggle_request_out_of_range_answers_400_and_mutates_nothing() {
    // POST /relay/toggle?relayId=9&isActive=true answers 400 with the
    // out-of-range message and leaves all four relays unchanged.
    let mut bank = four_relay_bank();
    let resp = handle_toggle(&mut bank, "/relay/toggle?relayId=9&isActive=true");
    assert_eq!(resp, ToggleResponse::OutOfRange);
    assert_eq!(resp.status(), 400);
    assert!(resp.body().contains("out of range"));
    assert_eq!(resp.body(), "Relay ID is out of range");
    assert_eq!(all_states(&bank), vec![false, false, false, false]);
}

#[test]
fn out_of_range_wins_over_is_active_value() {
    let mut bank = four_relay_bank();
    for uri in [
        "/relay/toggle?relayId=4&isActive=true",
        "/relay/toggle?relayId=4&isActive=false",
        "/relay/toggle?relayId=200&isActive=junk",
    ] {
        let resp = handle_toggle(&mut bank, uri);
        assert_eq!(resp, ToggleResponse::OutOfRange);
        assert_eq!(all_states(&bank), vec![false, false, false, false]);
    }
}

#[test]
fn missing_relay_id_means_relay_zero() {
    let mut bank = four_relay_bank();
    let resp = handle_toggle(&mut bank, "/relay/toggle?isActive=true");
    assert_eq!(resp, ToggleResponse::Success);
    assert_eq!(all_states(&bank), vec![true, false, false, false]);
}

#[test]
fn missing_is_active_means_off() {
    let mut bank = four_relay_bank();
    bank.set_state(1, true).unwrap();
    let resp = handle_toggle(&mut bank, "/relay/toggle?relayId=1");
    assert_eq!(resp, ToggleResponse::Success);
    assert_eq!(all_states(&bank), vec![false, false, false, false]);
}

#[test]
fn unparseable_parameters_answer_400_and_mutate_nothing() {
    let mut bank = four_relay_bank();
    for uri in [
        "/relay/toggle?relayId=abc&isActive=true",
        "/relay/toggle?relayId=1&isActive=yes",
        "/relay/toggle?relayId=-1",
    ] {
        let resp = handle_toggle(&mut bank, uri);
        assert_eq!(resp, ToggleResponse::InvalidParam);
        assert_eq!(resp.status(), 400);
        assert_eq!(resp.body(), "Invalid query parameter");
        assert_eq!(all_states(&bank), vec![false, false, false, false]);
    }
}

#[test]
fn first_occurrence_of_a_parameter_wins() {
    let mut bank = four_relay_bank();
    let resp = handle_toggle(&mut bank, "/relay/toggle?relayId=1&relayId=3&isActive=true");
    assert_eq!(resp, ToggleResponse::Success);
    assert_eq!(all_states(&bank), vec![false, true, false, false]);
}

#[test]
fn query_pairs_are_percent_decoded() {
    // %32 decodes to the digit 2: if the query split handed the text back
    // undecoded, relayId would not parse.
    let mut bank = four_relay_bank();
    let resp = handle_toggle(&mut bank, "/relay/toggle?relayId=%32&isActive=true");
    assert_eq!(resp, ToggleResponse::Success);
    assert_eq!(all_states(&bank), vec![false, false, true, false]);
}

#[test]
fn toggle_params_decide_like_the_raw_request_line() {
    let mut bank = four_relay_bank();
    let pairs = vec![
        (String::from("relayId"), String::from("3")),
        (String::from("isActive"), String::from("true")),
    ];
    let resp = handle_toggle_params(&mut bank, &pairs);
    assert_eq!(resp, ToggleResponse::Success);
    assert_eq!(all_states(&bank), vec![false, false, false, true]);
}

#[test]
fn dec_string_renders_decimals() {
    assert_eq!(dec_string(0), "0");
    assert_eq!(dec_string(7), "7");
    assert_eq!(dec_string(10), "10");
    assert_eq!(dec_string(255), "255");
    assert_eq!(dec_string(1234), "1234");
}

#[test]
fn rendered_list_embeds_every_relay_in_order() {
    // End to end: after toggling relay 2 on, the page embeds id 2 active
    // and ids 0, 1, 3 inactive.
    let mut bank = four_relay_bank();
    let resp = handle_toggle(&mut bank, "/relay/toggle?relayId=2&isActive=true");
    assert_eq!(resp.status(), 200);
    let json = render_relays_json(&bank);
    assert_eq!(
        json,
        "[{\"name\":\"lampu kamar\",\"isActive\":false,\"id\":0},\
         {\"name\":\"lampu keluarga\",\"isActive\":false,\"id\":1},\
         {\"name\":\"lampu ruang tamu\",\"isActive\":true,\"id\":2},\
         {\"name\":\"lampu dapur\",\"isActive\":false,\"id\":3}]"
    );
}

#[test]
fn rendered_page_wraps_the_list() {
    let mut bank = RelayBank::new();
    bank.add_relay(String::from("lamp"));
    let page = render_page("<html>", &bank, "</html>");
    assert_eq!(page, "<html>[{\"name\":\"lamp\",\"isActive\":false,\"id\":0}]</html>");
}

#[test]
fn empty_bank_renders_an_empty_list() {
    let bank = RelayBank::new();
    assert_eq!(render_relays_json(&bank), "[]");
}

#[test]
fn shared_bank_answers_requests_and_renders() {
    let shared = SharedRelayBank::new(four_relay_bank());
    let resp = shared.handle_toggle("/relay/toggle?relayId=2&isActive=true");
    assert_eq!(resp, ToggleResponse::Success);
    assert_eq!(shared.get_state(2), Ok(true));
    let resp = shared.handle_toggle("/relay/toggle?relayId=9&isActive=true");
    assert_eq!(resp, ToggleResponse::OutOfRange);
    assert_eq!(resp.status(), 400);
    let page = shared.render_page("<body>", "</body>");
    assert!(page.starts_with("<body>["));
    assert!(page.ends_with("]</body>"));
    assert!(page.contains("\"name\":\"lampu ruang tamu\",\"isActive\":true,\"id\":2"));
}
