use moto_core::json::json_string_literal;
use moto_core::map::marker_popup;

#[test]
fn json_string_literals_match_serde_json() {
    let mut all_ascii = String::new();
    for code in 0u32..0x80 {
        all_ascii.push(char::from_u32(code).unwrap());
    }
    let samples = [
        String::new(),
        "Origen".to_string(),
        r#""); alert("xss"); ("#.to_string(),
        "back\\slash / slash".to_string(),
        "línea\nnueva\ttab\r\u{8}\u{c}\u{1f}\u{7f}".to_string(),
        "Bogotá ñ 漢字 🚕".to_string(),
        all_ascii,
    ];
    for sample in samples {
        assert_eq!(
            json_string_literal(&sample),
            serde_json::to_string(&sample).unwrap(),
            "sample {sample:?}"
        );
    }
}

#[test]
fn marker_label_with_quotes_is_escaped_and_cannot_break_out_of_the_script() {
    let popup = marker_popup(&Some(r#""); alert("xss"); ("#.to_string()));

    assert_eq!(popup, r#".bindPopup("\"); alert(\"xss\"); (")"#);
    assert_eq!(marker_popup(&None), "");
}
