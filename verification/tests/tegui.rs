use tww::tegui::{
    answer_action, line_feeds, paste_event, submission, ActionAnswer, ActionRequested, EguiRenderer,
    InputEvent, UiOutput,
};

fn pasted(text: &str) -> Option<String> {
    match paste_event(Some(text.to_string())) {
        Some(InputEvent::Paste(text)) => Some(text),
        Some(_) => panic!("not a paste"),
        None => None,
    }
}

#[test]
fn requests_are_answered() {
    assert!(matches!(answer_action(ActionRequested::Screenshot), ActionAnswer::Nothing));
    assert!(matches!(
        answer_action(ActionRequested::Cut),
        ActionAnswer::Event { event: InputEvent::Cut }
    ));
    assert!(matches!(
        answer_action(ActionRequested::Copy),
        ActionAnswer::Event { event: InputEvent::Copy }
    ));
    assert!(matches!(answer_action(ActionRequested::Paste), ActionAnswer::ReadClipboard));
}

#[test]
fn pasted_text_has_line_feeds() {
    assert_eq!(pasted("one\r\ntwo\r\n"), Some("one\ntwo\n".to_string()));
    assert_eq!(pasted("plain"), Some("plain".to_string()));
    assert_eq!(pasted("\r\n"), Some("\n".to_string()));
}

#[test]
fn nothing_is_pasted_from_an_empty_clipboard() {
    assert!(paste_event(None).is_none());
    assert_eq!(pasted(""), None);
}

#[test]
fn line_feeds_agree_with_a_replacement_of_the_pair() {
    for text in [
        "",
        "\r",
        "\n",
        "\r\n",
        "\n\r",
        "\r\r\n",
        "\r\n\r\n",
        "a\rb\nc\r\nd\r",
        "\u{e9}\r\n\u{1f600}\r\r\r\n",
    ] {
        assert_eq!(line_feeds(text), text.replace("\r\n", "\n"));
    }
}

#[test]
fn stretches_convert_one_by_one_unless_cut_within_a_pair() {
    assert_eq!(line_feeds("a\r\nb\r") + &line_feeds("c\r\n"), line_feeds("a\r\nb\rc\r\n"));
    assert_ne!(line_feeds("a\r") + &line_feeds("\nb"), line_feeds("a\r\nb"));
}

#[test]
fn frames_replace_primitives_and_add_textures() {
    let mut renderer: EguiRenderer<char, u32, u8> = EguiRenderer::new();
    assert!(renderer.clipped_primitives.is_empty());
    renderer.ui(UiOutput {
        clipped_primitives: vec!['a', 'b'],
        textures_set: vec![1, 2],
        textures_free: vec![],
    });
    renderer.ui(UiOutput {
        clipped_primitives: vec!['c'],
        textures_set: vec![3],
        textures_free: vec![9],
    });
    assert_eq!(renderer.clipped_primitives, vec!['c']);
    assert_eq!(renderer.textures_set, vec![1, 2, 3]);
    assert_eq!(renderer.textures_free, vec![9]);
}

#[test]
fn drawing_is_submitted_last() {
    assert_eq!(submission(vec![1, 2], 3), vec![1, 2, 3]);
    assert_eq!(submission(vec![], 3), vec![3]);
}
