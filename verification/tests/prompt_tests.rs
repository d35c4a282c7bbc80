use jit_shipper::prompt::{chosen_option, wants_fallback, yes_no_answer};

#[test]
fn first_option_means_yes() {
    assert!(yes_no_answer(0));
    assert!(!yes_no_answer(1));
}

#[test]
fn option_text_picked() {
    let options = ["alpha", "beta", "gamma"];
    assert_eq!(chosen_option(&options, 1), "beta");
    assert_eq!(chosen_option(&options, 2), "gamma");
}

#[test]
fn fallback_flag_detected() {
    let args = vec!["jit_shipper".to_string(), "--fallback".to_string()];
    assert!(wants_fallback(&args));
    let plain = vec!["jit_shipper".to_string(), "--fallbacks".to_string()];
    assert!(!wants_fallback(&plain));
    assert!(!wants_fallback(&vec![]));
}
