use skate::args::Args;
use skate::config::{Config, Dimensions, ServerState};
use skate::control::Status;
use skate::pages::{aspect_ratio, assemble_root, page, root};

fn state(name: &str, background: &str, ratio: Dimensions, control: bool) -> ServerState {
    let config = Config {
        name: name.to_string(),
        password: None,
        control: Some(control),
        slides: Vec::new(),
        slide_ratio: ratio,
        background: Some(background.to_string()),
    };
    ServerState::new(config, Args { config: None, port: None, password: None, control: false })
}

const EXPECTED: &str = r#"
<html>
    <head>
        <title>talk</title>
        <meta charset="utf-8" />
        <meta name="viewport" content="width=device-width, initial-scale=1" />
        <meta name="description" content=talk/>
        <style>
body { color: red; }
        </style>
    </head>
    <body>
        <iframe src="/0">
        <script>
run
        </script>
    </body>
</html>
"#;

#[test]
fn a_ratio_is_written_with_a_slash() {
    assert_eq!(aspect_ratio(Dimensions { width: 16, height: 9 }), "16/9");
    assert_eq!(aspect_ratio(Dimensions { width: 4, height: 3 }), "4/3");
    assert_eq!(aspect_ratio(Dimensions { width: 1, height: 1 }), "1/1");
    assert_eq!(aspect_ratio(Dimensions { width: 0, height: 65535 }), "0/65535");
}

#[test]
fn the_frame_page_is_put_together_from_its_parts() {
    assert_eq!(assemble_root("talk", "body { color: red; }", "run", false), EXPECTED);
}

#[test]
fn with_control_the_script_is_called() {
    let page = assemble_root("talk", "body { color: red; }", "run", true);
    assert_eq!(page, EXPECTED.replace("run\n", "run()\n"));
}

#[test]
fn the_style_sheet_gets_background_and_ratio() {
    let state = state("talk", "#111122", Dimensions { width: 16, height: 9 }, false);
    let page = root(&state, "run", "body { background: BACKGROUND; aspect-ratio: ASPECT_RATIO; }");
    let style = "body { background: #111122; aspect-ratio: 16/9; }";
    assert_eq!(page, assemble_root("talk", style, "run", false));
    assert!(page.contains(style));
    assert!(!page.contains("BACKGROUND"));
    assert!(!page.contains("ASPECT_RATIO"));
}

#[test]
fn every_mark_of_the_style_sheet_is_filled_in() {
    let state = state("t", "red", Dimensions { width: 4, height: 3 }, true);
    let page = root(&state, "s", "BACKGROUND BACKGROUND ASPECT_RATIO|ASPECT_RATIO");
    assert_eq!(page, assemble_root("t", "red red 4/3|4/3", "s", true));
}

#[test]
fn a_style_sheet_without_marks_is_kept() {
    let state = state("t", "red", Dimensions { width: 4, height: 3 }, false);
    assert_eq!(root(&state, "s", "p {}"), assemble_root("t", "p {}", "s", false));
}

#[test]
fn a_slide_that_was_read_is_served_as_it_is() {
    let answer = page(Ok("<h1>one</h1>".to_string()));
    assert_eq!(answer, (Status::Success, "<h1>one</h1>".to_string()));
    assert_eq!(page(Ok(String::new())), (Status::Success, String::new()));
}

#[test]
fn a_slide_that_could_not_be_read_is_not_found() {
    let answer = page(Err("No such file or directory (os error 2)".to_string()));
    assert_eq!(answer.0, Status::NotFound);
    assert_eq!(
        answer.1,
        "<html><body><h1>No such file or directory (os error 2)</h1></body></html>"
    );
}
