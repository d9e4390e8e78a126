use fortis::transcribers::deepgram::{
    parse_language_code, parse_model_name, Alternative, DeepgramTranscriber, Language, Model,
    StreamResponse, Word,
};
use fortis::transcribers::{create_transcriber, TranscriberConfig, TranscriptionResult, STREAM_ENDED};

fn word(text: &str, speaker: Option<i32>) -> Word {
    Word { word: text.to_string(), speaker }
}

fn transcript(text: &str, words: Vec<Word>) -> StreamResponse {
    StreamResponse::TranscriptResponse {
        alternatives: vec![Alternative { transcript: text.to_string(), words }],
    }
}

fn pairs(results: &[TranscriptionResult]) -> Vec<(String, Option<i32>)> {
    results.iter().map(|r| (r.transcript.clone(), r.speaker_id)).collect()
}

fn formatted(response: &StreamResponse) -> Vec<(String, Option<i32>)> {
    pairs(&DeepgramTranscriber::format_response(response))
}

#[test]
fn cjk_tokens_join_without_space() {
    let response = transcript(
        "ignored",
        vec![word("你", Some(0)), word("好", Some(0)), word("world", Some(0))],
    );
    assert_eq!(formatted(&response), vec![("你好 world".to_string(), Some(0))]);
}

#[test]
fn latin_then_cjk_gets_a_space() {
    let response = transcript(
        "",
        vec![word("hello", Some(1)), word("世界", Some(1)), word("こんにちは", Some(1)), word("カタカナ", Some(1)), word("ok", Some(1))],
    );
    assert_eq!(formatted(&response), vec![("hello 世界こんにちはカタカナ ok".to_string(), Some(1))]);
}

#[test]
fn is_cjk_knows_han_hiragana_and_katakana() {
    assert!(DeepgramTranscriber::is_cjk("你"));
    assert!(DeepgramTranscriber::is_cjk("abc好"));
    assert!(DeepgramTranscriber::is_cjk("\u{3400}"));
    assert!(DeepgramTranscriber::is_cjk("\u{4DBF}"));
    assert!(DeepgramTranscriber::is_cjk("\u{4E00}"));
    assert!(DeepgramTranscriber::is_cjk("\u{9FFF}"));
    assert!(DeepgramTranscriber::is_cjk("ひ"));
    assert!(DeepgramTranscriber::is_cjk("カ"));
    assert!(!DeepgramTranscriber::is_cjk("world"));
    assert!(!DeepgramTranscriber::is_cjk(""));
    assert!(!DeepgramTranscriber::is_cjk("한"));
    assert!(!DeepgramTranscriber::is_cjk("\u{303F}"));
    assert!(!DeepgramTranscriber::is_cjk("\u{3100}"));
    assert!(!DeepgramTranscriber::is_cjk("\u{A000}"));
}

#[test]
fn words_are_grouped_by_speaker() {
    let response = transcript(
        "a b c d e",
        vec![
            word("a", Some(0)),
            word("b", Some(0)),
            word("c", Some(1)),
            word("d", Some(0)),
            word("e", Some(0)),
        ],
    );
    assert_eq!(
        formatted(&response),
        vec![
            ("a b".to_string(), Some(0)),
            ("c".to_string(), Some(1)),
            ("d e".to_string(), Some(0)),
        ]
    );
}

#[test]
fn no_speaker_data_gives_the_whole_transcript() {
    let response = transcript("hello there", vec![word("hello", None), word("there", None)]);
    assert_eq!(formatted(&response), vec![("hello there".to_string(), None)]);
    let response = transcript("just text", vec![]);
    assert_eq!(formatted(&response), vec![("just text".to_string(), None)]);
}

#[test]
fn empty_transcript_without_speakers_gives_nothing() {
    let response = transcript("", vec![]);
    assert_eq!(formatted(&response), vec![]);
    let response = transcript("", vec![word("lost", None)]);
    assert_eq!(formatted(&response), vec![]);
}

#[test]
fn words_without_speaker_count_to_the_next_speaker() {
    let response = transcript(
        "um hello",
        vec![word("um", None), word("hello", Some(2))],
    );
    assert_eq!(formatted(&response), vec![("um hello".to_string(), Some(2))]);
}

#[test]
fn speaker_then_none_flushes_and_falls_back_to_transcript() {
    let response = transcript(
        "hi bye",
        vec![word("hi", Some(2)), word("bye", None)],
    );
    assert_eq!(
        formatted(&response),
        vec![("hi".to_string(), Some(2)), ("hi bye".to_string(), None)]
    );
}

#[test]
fn run_text_is_trimmed() {
    let response = transcript("x", vec![word("  padded ", Some(0)), word("", Some(0))]);
    assert_eq!(formatted(&response), vec![("padded".to_string(), Some(0))]);
}

#[test]
fn every_alternative_is_formatted() {
    let response = StreamResponse::TranscriptResponse {
        alternatives: vec![
            Alternative { transcript: "one".into(), words: vec![word("one", Some(0))] },
            Alternative { transcript: "two".into(), words: vec![] },
        ],
    };
    assert_eq!(
        formatted(&response),
        vec![("one".to_string(), Some(0)), ("two".to_string(), None)]
    );
}

#[test]
fn terminal_response_is_the_stream_end() {
    let results = DeepgramTranscriber::format_response(&StreamResponse::TerminalResponse);
    assert_eq!(pairs(&results), vec![("Transcription stream ended".to_string(), None)]);
    assert_eq!(STREAM_ENDED, "Transcription stream ended");
    assert!(results[0].is_stream_end());
    let ordinary = TranscriptionResult { transcript: "hello".into(), speaker_id: None };
    assert!(!ordinary.is_stream_end());
}

#[test]
fn other_responses_give_nothing() {
    assert!(DeepgramTranscriber::format_response(&StreamResponse::SpeechStartedResponse).is_empty());
    assert!(DeepgramTranscriber::format_response(&StreamResponse::UtteranceEndResponse).is_empty());
    assert!(DeepgramTranscriber::format_response(&StreamResponse::Other).is_empty());
}

#[test]
fn language_codes_in_all_spellings() {
    assert_eq!(parse_language_code("multi"), Some(Language::Multi));
    assert_eq!(parse_language_code("en"), Some(Language::En));
    assert_eq!(parse_language_code("en-US"), Some(Language::EnUs));
    assert_eq!(parse_language_code("en_us"), Some(Language::EnUs));
    assert_eq!(parse_language_code("enUS"), Some(Language::EnUs));
    assert_eq!(parse_language_code("en-GB"), Some(Language::EnGb));
    assert_eq!(parse_language_code("es-419"), Some(Language::Es419));
    assert_eq!(parse_language_code("es_419"), Some(Language::Es419));
    assert_eq!(parse_language_code("es-LATAM"), Some(Language::EsLatam));
    assert_eq!(parse_language_code("zh-Hans"), Some(Language::ZhHans));
    assert_eq!(parse_language_code("zhHant"), Some(Language::ZhHant));
    assert_eq!(parse_language_code("hi_latn"), Some(Language::HiLatn));
    assert_eq!(parse_language_code("th-TH"), Some(Language::ThTh));
    assert_eq!(parse_language_code("taq"), Some(Language::Taq));
    assert_eq!(parse_language_code("ca"), Some(Language::Ca));
    assert_eq!(parse_language_code("ja"), Some(Language::Ja));
    assert_eq!(parse_language_code("ko-KR"), Some(Language::KoKr));
    assert_eq!(parse_language_code("pt-BR"), Some(Language::PtBr));
    assert_eq!(parse_language_code("EN"), None);
    assert_eq!(parse_language_code("en-us"), None);
    assert_eq!(parse_language_code(""), None);
    assert_eq!(parse_language_code("klingon"), None);
}

#[test]
fn every_language_code_of_the_table() {
    let table: Vec<(&str, Language)> = vec![
        ("en-AU", Language::EnAu), ("en-NZ", Language::EnNz), ("en-IN", Language::EnIn),
        ("es", Language::Es), ("fr", Language::Fr), ("fr-CA", Language::FrCa),
        ("de", Language::De), ("de-CH", Language::DeCh), ("it", Language::It),
        ("pt", Language::Pt), ("nl", Language::Nl), ("nl-BE", Language::NlBe),
        ("pl", Language::Pl), ("ru", Language::Ru), ("uk", Language::Uk),
        ("sv", Language::Sv), ("sv-SE", Language::SvSe), ("da", Language::Da),
        ("no", Language::No), ("fi", Language::Fi), ("tr", Language::Tr),
        ("el", Language::El), ("cs", Language::Cs), ("sk", Language::Sk),
        ("hu", Language::Hu), ("ro", Language::Ro), ("bg", Language::Bg),
        ("et", Language::Et), ("lv", Language::Lv), ("lt", Language::Lt),
        ("ko", Language::Ko), ("zh", Language::Zh), ("zh-CN", Language::ZhCn),
        ("zh-TW", Language::ZhTw), ("hi", Language::Hi), ("ta", Language::Ta),
        ("th", Language::Th), ("vi", Language::Vi), ("id", Language::Id),
        ("ms", Language::Ms),
    ];
    for (code, language) in table {
        assert_eq!(parse_language_code(code), Some(language), "{code}");
    }
}

#[test]
fn model_names() {
    assert_eq!(parse_model_name("nova-3"), Some(Model::Nova3));
    assert_eq!(parse_model_name("nova-2"), Some(Model::Nova2));
    assert_eq!(parse_model_name("nova-2-general"), Some(Model::Nova2));
    assert_eq!(parse_model_name("nova-2-meeting"), Some(Model::Nova2Meeting));
    assert_eq!(parse_model_name("nova-2-phonecall"), Some(Model::Nova2Phonecall));
    assert_eq!(parse_model_name("nova-2-finance"), Some(Model::Nova2Finance));
    assert_eq!(parse_model_name("nova-2-conversationalai"), Some(Model::Nova2Conversationalai));
    assert_eq!(parse_model_name("nova-2-voicemail"), Some(Model::Nova2Voicemail));
    assert_eq!(parse_model_name("nova-2-video"), Some(Model::Nova2Video));
    assert_eq!(parse_model_name("nova-2-medical"), Some(Model::Nova2Medical));
    assert_eq!(parse_model_name("nova-2-drivethru"), Some(Model::Nova2Drivethru));
    assert_eq!(parse_model_name("nova-2-automotive"), Some(Model::Nova2Automotive));
    assert_eq!(parse_model_name("nova-3-medical"), Some(Model::Nova3Medical));
    assert_eq!(parse_model_name("nova"), None);
    assert_eq!(parse_model_name(""), None);
}

#[test]
fn transcriber_holds_its_parameters() {
    let mut transcriber = DeepgramTranscriber::new("secret", "en-GB", "nova-2-meeting");
    assert_eq!(transcriber.api_key(), "secret");
    assert_eq!(transcriber.sample_rate(), 0);
    assert_eq!(transcriber.channels(), 0);
    assert_eq!(transcriber.language(), Some(Language::EnGb));
    assert_eq!(transcriber.model(), Some(Model::Nova2Meeting));
    transcriber.initialize(48000, 1);
    assert_eq!(transcriber.sample_rate(), 48000);
    assert_eq!(transcriber.channels(), 1);
    assert_eq!(transcriber.language(), Some(Language::EnGb));

    let unknown = DeepgramTranscriber::new("k", "xx", "yy");
    assert_eq!(unknown.language(), None);
    assert_eq!(unknown.model(), None);
}

#[test]
fn create_transcriber_follows_the_configuration() {
    let transcriber = create_transcriber(TranscriberConfig::Deepgram {
        api_key: "key".into(),
        language: "ja".into(),
        model: "nova-3".into(),
    });
    assert_eq!(transcriber.api_key(), "key");
    assert_eq!(transcriber.language(), Some(Language::Ja));
    assert_eq!(transcriber.model(), Some(Model::Nova3));
}

#[test]
fn codes_and_names_read_back() {
    let codes = [
        "multi", "en", "en-US", "en-GB", "en-AU", "en-NZ", "en-IN", "es", "es-419", "es-LATAM",
        "fr", "fr-CA", "de", "de-CH", "it", "pt", "pt-BR", "nl", "nl-BE", "pl", "ru", "uk", "sv",
        "sv-SE", "da", "no", "fi", "tr", "el", "cs", "sk", "hu", "ro", "bg", "et", "lv", "lt",
        "ja", "ko", "ko-KR", "zh", "zh-CN", "zh-TW", "zh-Hans", "zh-Hant", "hi", "hi-Latn", "ta",
        "th", "th-TH", "vi", "id", "ms", "taq", "ca",
    ];
    for code in codes {
        let language = parse_language_code(code).expect(code);
        assert_eq!(language.code(), code);
    }
    let names = [
        "nova-3", "nova-2", "nova-2-meeting", "nova-2-phonecall", "nova-2-finance",
        "nova-2-conversationalai", "nova-2-voicemail", "nova-2-video", "nova-2-medical",
        "nova-2-drivethru", "nova-2-automotive", "nova-3-medical",
    ];
    for name in names {
        let model = parse_model_name(name).expect(name);
        assert_eq!(model.name(), name);
    }
}
