use vibe_server::cli::{
    asks_for_cli, is_cli_detected, prepare_model_path, select_format, ModelPathChoice,
    TranscriptFormat,
};

fn args(list: &[&str]) -> Vec<String> {
    list.iter().map(|a| a.to_string()).collect()
}

#[test]
fn long_options_and_the_help_flag_ask_for_the_command_line() {
    assert!(asks_for_cli("--model"));
    assert!(asks_for_cli("--"));
    assert!(asks_for_cli("-h"));
    assert!(!asks_for_cli("-x"));
    assert!(!asks_for_cli("-"));
    assert!(!asks_for_cli(""));
    assert!(!asks_for_cli("file.wav"));
    assert!(!asks_for_cli("-hh"));
}

#[test]
fn the_command_line_is_detected_from_any_argument() {
    assert!(is_cli_detected(&args(&["vibe", "--file", "a.wav"])));
    assert!(is_cli_detected(&args(&["vibe", "a.wav", "-h"])));
    assert!(!is_cli_detected(&args(&["vibe"])));
    assert!(!is_cli_detected(&args(&["vibe", "a.wav", "-v"])));
    assert!(!is_cli_detected(&args(&[])));
}

#[test]
fn formats_are_chosen_by_name() {
    assert_eq!(select_format("srt"), (TranscriptFormat::Srt, true));
    assert_eq!(select_format("vtt"), (TranscriptFormat::Vtt, true));
    assert_eq!(select_format("text"), (TranscriptFormat::Text, true));
}

#[test]
fn an_unknown_format_falls_back_to_subtitles() {
    assert_eq!(select_format("json"), (TranscriptFormat::Srt, false));
    assert_eq!(select_format(""), (TranscriptFormat::Srt, false));
    assert_eq!(select_format("SRT"), (TranscriptFormat::Srt, false));
}

#[test]
fn a_model_path_is_taken_as_given_where_it_can_be() {
    assert_eq!(prepare_model_path(true, false, true), ModelPathChoice::AsGiven);
    assert_eq!(prepare_model_path(true, true, true), ModelPathChoice::AsGiven);
    assert_eq!(prepare_model_path(false, true, true), ModelPathChoice::AsGiven);
    assert_eq!(prepare_model_path(false, false, false), ModelPathChoice::AsGiven);
}

#[test]
fn a_model_path_falls_back_to_the_models_folder() {
    assert_eq!(prepare_model_path(false, false, true), ModelPathChoice::UnderModelsFolder);
}
