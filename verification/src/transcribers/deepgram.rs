//! The Deepgram streaming provider: its parameters, and the grouping of its
//! responses into speaker-attributed results.

use vstd::prelude::*;
use vstd::string::*;
use crate::text::{push_char, str_eq, trim, trimmed};
use crate::transcribers::{result_views, ResultView, TranscriptionResult, STREAM_ENDED};

verus! {

/// A language that the provider can be asked to expect.
#[derive(Debug, Clone, Copy, PartialEq, Eq, Structural)]
pub enum Language {
    Multi,
    En,
    EnUs,
    EnGb,
    EnAu,
    EnNz,
    EnIn,
    Es,
    Es419,
    EsLatam,
    Fr,
    FrCa,
    De,
    DeCh,
    It,
    Pt,
    PtBr,
    Nl,
    NlBe,
    Pl,
    Ru,
    Uk,
    Sv,
    SvSe,
    Da,
    No,
    Fi,
    Tr,
    El,
    Cs,
    Sk,
    Hu,
    Ro,
    Bg,
    Et,
    Lv,
    Lt,
    Ja,
    Ko,
    KoKr,
    Zh,
    ZhCn,
    ZhTw,
    ZhHans,
    ZhHant,
    Hi,
    HiLatn,
    Ta,
    Th,
    ThTh,
    Vi,
    Id,
    Ms,
    Taq,
    Ca,
}

/// A transcription model of the provider.
#[derive(Debug, Clone, Copy, PartialEq, Eq, Structural)]
pub enum Model {
    Nova3,
    Nova2,
    Nova2Meeting,
    Nova2Phonecall,
    Nova2Finance,
    Nova2Conversationalai,
    Nova2Voicemail,
    Nova2Video,
    Nova2Medical,
    Nova2Drivethru,
    Nova2Automotive,
    Nova3Medical,
}

/// Whether `code` is a region-qualified language code in one of its three
/// spellings: with a hyphen, in lower case with an underscore, or run together.
pub open spec fn spelled(code: Seq<char>, hyphen: &str, underscore: &str, joined: &str) -> bool {
    code == hyphen@ || code == underscore@ || code == joined@
}

/// The language that a language code names, if any.
pub open spec fn language_of(code: Seq<char>) -> Option<Language> {
    if code == "multi"@ {
        Some(Language::Multi)
    } else if code == "en"@ {
        Some(Language::En)
    } else if spelled(code, "en-US", "en_us", "enUS") {
        Some(Language::EnUs)
    } else if spelled(code, "en-GB", "en_gb", "enGB") {
        Some(Language::EnGb)
    } else if spelled(code, "en-AU", "en_au", "enAU") {
        Some(Language::EnAu)
    } else if spelled(code, "en-NZ", "en_nz", "enNZ") {
        Some(Language::EnNz)
    } else if spelled(code, "en-IN", "en_in", "enIN") {
        Some(Language::EnIn)
    } else if code == "es"@ {
        Some(Language::Es)
    } else if code == "es-419"@ || code == "es_419"@ {
        Some(Language::Es419)
    } else if spelled(code, "es-LATAM", "es_latam", "esLATAM") {
        Some(Language::EsLatam)
    } else if code == "fr"@ {
        Some(Language::Fr)
    } else if spelled(code, "fr-CA", "fr_ca", "frCA") {
        Some(Language::FrCa)
    } else if code == "de"@ {
        Some(Language::De)
    } else if spelled(code, "de-CH", "de_ch", "deCH") {
        Some(Language::DeCh)
    } else if code == "it"@ {
        Some(Language::It)
    } else if code == "pt"@ {
        Some(Language::Pt)
    } else if spelled(code, "pt-BR", "pt_br", "ptBR") {
        Some(Language::PtBr)
    } else if code == "nl"@ {
        Some(Language::Nl)
    } else if spelled(code, "nl-BE", "nl_be", "nlBE") {
        Some(Language::NlBe)
    } else if code == "pl"@ {
        Some(Language::Pl)
    } else if code == "ru"@ {
        Some(Language::Ru)
    } else if code == "uk"@ {
        Some(Language::Uk)
    } else if code == "sv"@ {
        Some(Language::Sv)
    } else if spelled(code, "sv-SE", "sv_se", "svSE") {
        Some(Language::SvSe)
    } else if code == "da"@ {
        Some(Language::Da)
    } else if code == "no"@ {
        Some(Language::No)
    } else if code == "fi"@ {
        Some(Language::Fi)
    } else if code == "tr"@ {
        Some(Language::Tr)
    } else if code == "el"@ {
        Some(Language::El)
    } else if code == "cs"@ {
        Some(Language::Cs)
    } else if code == "sk"@ {
        Some(Language::Sk)
    } else if code == "hu"@ {
        Some(Language::Hu)
    } else if code == "ro"@ {
        Some(Language::Ro)
    } else if code == "bg"@ {
        Some(Language::Bg)
    } else if code == "et"@ {
        Some(Language::Et)
    } else if code == "lv"@ {
        Some(Language::Lv)
    } else if code == "lt"@ {
        Some(Language::Lt)
    } else if code == "ja"@ {
        Some(Language::Ja)
    } else if code == "ko"@ {
        Some(Language::Ko)
    } else if spelled(code, "ko-KR", "ko_kr", "koKR") {
        Some(Language::KoKr)
    } else if code == "zh"@ {
        Some(Language::Zh)
    } else if spelled(code, "zh-CN", "zh_cn", "zhCN") {
        Some(Language::ZhCn)
    } else if spelled(code, "zh-TW", "zh_tw", "zhTW") {
        Some(Language::ZhTw)
    } else if spelled(code, "zh-Hans", "zh_hans", "zhHans") {
        Some(Language::ZhHans)
    } else if spelled(code, "zh-Hant", "zh_hant", "zhHant") {
        Some(Language::ZhHant)
    } else if code == "hi"@ {
        Some(Language::Hi)
    } else if spelled(code, "hi-Latn", "hi_latn", "hiLatn") {
        Some(Language::HiLatn)
    } else if code == "ta"@ {
        Some(Language::Ta)
    } else if code == "th"@ {
        Some(Language::Th)
    } else if spelled(code, "th-TH", "th_th", "thTH") {
        Some(Language::ThTh)
    } else if code == "vi"@ {
        Some(Language::Vi)
    } else if code == "id"@ {
        Some(Language::Id)
    } else if code == "ms"@ {
        Some(Language::Ms)
    } else if code == "taq"@ {
        Some(Language::Taq)
    } else if code == "ca"@ {
        Some(Language::Ca)
    } else {
        None
    }
}

/// The model that a model name stands for, if any.
pub open spec fn model_of(name: Seq<char>) -> Option<Model> {
    if name == "nova-3"@ {
        Some(Model::Nova3)
    } else if name == "nova-2"@ || name == "nova-2-general"@ {
        Some(Model::Nova2)
    } else if name == "nova-2-meeting"@ {
        Some(Model::Nova2Meeting)
    } else if name == "nova-2-phonecall"@ {
        Some(Model::Nova2Phonecall)
    } else if name == "nova-2-finance"@ {
        Some(Model::Nova2Finance)
    } else if name == "nova-2-conversationalai"@ {
        Some(Model::Nova2Conversationalai)
    } else if name == "nova-2-voicemail"@ {
        Some(Model::Nova2Voicemail)
    } else if name == "nova-2-video"@ {
        Some(Model::Nova2Video)
    } else if name == "nova-2-medical"@ {
        Some(Model::Nova2Medical)
    } else if name == "nova-2-drivethru"@ {
        Some(Model::Nova2Drivethru)
    } else if name == "nova-2-automotive"@ {
        Some(Model::Nova2Automotive)
    } else if name == "nova-3-medical"@ {
        Some(Model::Nova3Medical)
    } else {
        None
    }
}

impl Language {
    /// The code of the language, in its spelling with a hyphen.
    pub open spec fn code_of(self) -> &'static str {
        match self {
            Language::Multi => "multi",
            Language::En => "en",
            Language::EnUs => "en-US",
            Language::EnGb => "en-GB",
            Language::EnAu => "en-AU",
            Language::EnNz => "en-NZ",
            Language::EnIn => "en-IN",
            Language::Es => "es",
            Language::Es419 => "es-419",
            Language::EsLatam => "es-LATAM",
            Language::Fr => "fr",
            Language::FrCa => "fr-CA",
            Language::De => "de",
            Language::DeCh => "de-CH",
            Language::It => "it",
            Language::Pt => "pt",
            Language::PtBr => "pt-BR",
            Language::Nl => "nl",
            Language::NlBe => "nl-BE",
            Language::Pl => "pl",
            Language::Ru => "ru",
            Language::Uk => "uk",
            Language::Sv => "sv",
            Language::SvSe => "sv-SE",
            Language::Da => "da",
            Language::No => "no",
            Language::Fi => "fi",
            Language::Tr => "tr",
            Language::El => "el",
            Language::Cs => "cs",
            Language::Sk => "sk",
            Language::Hu => "hu",
            Language::Ro => "ro",
            Language::Bg => "bg",
            Language::Et => "et",
            Language::Lv => "lv",
            Language::Lt => "lt",
            Language::Ja => "ja",
            Language::Ko => "ko",
            Language::KoKr => "ko-KR",
            Language::Zh => "zh",
            Language::ZhCn => "zh-CN",
            Language::ZhTw => "zh-TW",
            Language::ZhHans => "zh-Hans",
            Language::ZhHant => "zh-Hant",
            Language::Hi => "hi",
            Language::HiLatn => "hi-Latn",
            Language::Ta => "ta",
            Language::Th => "th",
            Language::ThTh => "th-TH",
            Language::Vi => "vi",
            Language::Id => "id",
            Language::Ms => "ms",
            Language::Taq => "taq",
            Language::Ca => "ca",
        }
    }

    /// The code of the language, in its spelling with a hyphen.
    pub fn code(&self) -> (code: &'static str)
        ensures
            code == self.code_of(),
    {
        match self {
            Language::Multi => "multi",
            Language::En => "en",
            Language::EnUs => "en-US",
            Language::EnGb => "en-GB",
            Language::EnAu => "en-AU",
            Language::EnNz => "en-NZ",
            Language::EnIn => "en-IN",
            Language::Es => "es",
            Language::Es419 => "es-419",
            Language::EsLatam => "es-LATAM",
            Language::Fr => "fr",
            Language::FrCa => "fr-CA",
            Language::De => "de",
            Language::DeCh => "de-CH",
            Language::It => "it",
            Language::Pt => "pt",
            Language::PtBr => "pt-BR",
            Language::Nl => "nl",
            Language::NlBe => "nl-BE",
            Language::Pl => "pl",
            Language::Ru => "ru",
            Language::Uk => "uk",
            Language::Sv => "sv",
            Language::SvSe => "sv-SE",
            Language::Da => "da",
            Language::No => "no",
            Language::Fi => "fi",
            Language::Tr => "tr",
            Language::El => "el",
            Language::Cs => "cs",
            Language::Sk => "sk",
            Language::Hu => "hu",
            Language::Ro => "ro",
            Language::Bg => "bg",
            Language::Et => "et",
            Language::Lv => "lv",
            Language::Lt => "lt",
            Language::Ja => "ja",
            Language::Ko => "ko",
            Language::KoKr => "ko-KR",
            Language::Zh => "zh",
            Language::ZhCn => "zh-CN",
            Language::ZhTw => "zh-TW",
            Language::ZhHans => "zh-Hans",
            Language::ZhHant => "zh-Hant",
            Language::Hi => "hi",
            Language::HiLatn => "hi-Latn",
            Language::Ta => "ta",
            Language::Th => "th",
            Language::ThTh => "th-TH",
            Language::Vi => "vi",
            Language::Id => "id",
            Language::Ms => "ms",
            Language::Taq => "taq",
            Language::Ca => "ca",
        }
    }
}

impl Model {
    /// The name of the model.
    pub open spec fn name_of(self) -> &'static str {
        match self {
            Model::Nova3 => "nova-3",
            Model::Nova2 => "nova-2",
            Model::Nova2Meeting => "nova-2-meeting",
            Model::Nova2Phonecall => "nova-2-phonecall",
            Model::Nova2Finance => "nova-2-finance",
            Model::Nova2Conversationalai => "nova-2-conversationalai",
            Model::Nova2Voicemail => "nova-2-voicemail",
            Model::Nova2Video => "nova-2-video",
            Model::Nova2Medical => "nova-2-medical",
            Model::Nova2Drivethru => "nova-2-drivethru",
            Model::Nova2Automotive => "nova-2-automotive",
            Model::Nova3Medical => "nova-3-medical",
        }
    }

    /// The name of the model.
    pub fn name(&self) -> (name: &'static str)
        ensures
            name == self.name_of(),
    {
        match self {
            Model::Nova3 => "nova-3",
            Model::Nova2 => "nova-2",
            Model::Nova2Meeting => "nova-2-meeting",
            Model::Nova2Phonecall => "nova-2-phonecall",
            Model::Nova2Finance => "nova-2-finance",
            Model::Nova2Conversationalai => "nova-2-conversationalai",
            Model::Nova2Voicemail => "nova-2-voicemail",
            Model::Nova2Video => "nova-2-video",
            Model::Nova2Medical => "nova-2-medical",
            Model::Nova2Drivethru => "nova-2-drivethru",
            Model::Nova2Automotive => "nova-2-automotive",
            Model::Nova3Medical => "nova-3-medical",
        }
    }
}

fn is_spelled(code: &str, hyphen: &str, underscore: &str, joined: &str) -> (found: bool)
    ensures
        found == spelled(code@, hyphen, underscore, joined),
{
    str_eq(code, hyphen) || str_eq(code, underscore) || str_eq(code, joined)
}

/// The language that a language code names, if any.
pub fn parse_language_code(code: &str) -> (language: Option<Language>)
    ensures
        language == language_of(code@),
{
    if str_eq(code, "multi") {
        Some(Language::Multi)
    } else if str_eq(code, "en") {
        Some(Language::En)
    } else if is_spelled(code, "en-US", "en_us", "enUS") {
        Some(Language::EnUs)
    } else if is_spelled(code, "en-GB", "en_gb", "enGB") {
        Some(Language::EnGb)
    } else if is_spelled(code, "en-AU", "en_au", "enAU") {
        Some(Language::EnAu)
    } else if is_spelled(code, "en-NZ", "en_nz", "enNZ") {
        Some(Language::EnNz)
    } else if is_spelled(code, "en-IN", "en_in", "enIN") {
        Some(Language::EnIn)
    } else if str_eq(code, "es") {
        Some(Language::Es)
    } else if str_eq(code, "es-419") || str_eq(code, "es_419") {
        Some(Language::Es419)
    } else if is_spelled(code, "es-LATAM", "es_latam", "esLATAM") {
        Some(Language::EsLatam)
    } else if str_eq(code, "fr") {
        Some(Language::Fr)
    } else if is_spelled(code, "fr-CA", "fr_ca", "frCA") {
        Some(Language::FrCa)
    } else if str_eq(code, "de") {
        Some(Language::De)
    } else if is_spelled(code, "de-CH", "de_ch", "deCH") {
        Some(Language::DeCh)
    } else if str_eq(code, "it") {
        Some(Language::It)
    } else if str_eq(code, "pt") {
        Some(Language::Pt)
    } else if is_spelled(code, "pt-BR", "pt_br", "ptBR") {
        Some(Language::PtBr)
    } else if str_eq(code, "nl") {
        Some(Language::Nl)
    } else if is_spelled(code, "nl-BE", "nl_be", "nlBE") {
        Some(Language::NlBe)
    } else if str_eq(code, "pl") {
        Some(Language::Pl)
    } else if str_eq(code, "ru") {
        Some(Language::Ru)
    } else if str_eq(code, "uk") {
        Some(Language::Uk)
    } else if str_eq(code, "sv") {
        Some(Language::Sv)
    } else if is_spelled(code, "sv-SE", "sv_se", "svSE") {
        Some(Language::SvSe)
    } else if str_eq(code, "da") {
        Some(Language::Da)
    } else if str_eq(code, "no") {
        Some(Language::No)
    } else if str_eq(code, "fi") {
        Some(Language::Fi)
    } else if str_eq(code, "tr") {
        Some(Language::Tr)
    } else if str_eq(code, "el") {
        Some(Language::El)
    } else if str_eq(code, "cs") {
        Some(Language::Cs)
    } else if str_eq(code, "sk") {
        Some(Language::Sk)
    } else if str_eq(code, "hu") {
        Some(Language::Hu)
    } else if str_eq(code, "ro") {
        Some(Language::Ro)
    } else if str_eq(code, "bg") {
        Some(Language::Bg)
    } else if str_eq(code, "et") {
        Some(Language::Et)
    } else if str_eq(code, "lv") {
        Some(Language::Lv)
    } else if str_eq(code, "lt") {
        Some(Language::Lt)
    } else if str_eq(code, "ja") {
        Some(Language::Ja)
    } else if str_eq(code, "ko") {
        Some(Language::Ko)
    } else if is_spelled(code, "ko-KR", "ko_kr", "koKR") {
        Some(Language::KoKr)
    } else if str_eq(code, "zh") {
        Some(Language::Zh)
    } else if is_spelled(code, "zh-CN", "zh_cn", "zhCN") {
        Some(Language::ZhCn)
    } else if is_spelled(code, "zh-TW", "zh_tw", "zhTW") {
        Some(Language::ZhTw)
    } else if is_spelled(code, "zh-Hans", "zh_hans", "zhHans") {
        Some(Language::ZhHans)
    } else if is_spelled(code, "zh-Hant", "zh_hant", "zhHant") {
        Some(Language::ZhHant)
    } else if str_eq(code, "hi") {
        Some(Language::Hi)
    } else if is_spelled(code, "hi-Latn", "hi_latn", "hiLatn") {
        Some(Language::HiLatn)
    } else if str_eq(code, "ta") {
        Some(Language::Ta)
    } else if str_eq(code, "th") {
        Some(Language::Th)
    } else if is_spelled(code, "th-TH", "th_th", "thTH") {
        Some(Language::ThTh)
    } else if str_eq(code, "vi") {
        Some(Language::Vi)
    } else if str_eq(code, "id") {
        Some(Language::Id)
    } else if str_eq(code, "ms") {
        Some(Language::Ms)
    } else if str_eq(code, "taq") {
        Some(Language::Taq)
    } else if str_eq(code, "ca") {
        Some(Language::Ca)
    } else {
        None
    }
}

/// The model that a model name stands for, if any.
pub fn parse_model_name(model: &str) -> (parsed: Option<Model>)
    ensures
        parsed == model_of(model@),
{
    if str_eq(model, "nova-3") {
        Some(Model::Nova3)
    } else if str_eq(model, "nova-2") || str_eq(model, "nova-2-general") {
        Some(Model::Nova2)
    } else if str_eq(model, "nova-2-meeting") {
        Some(Model::Nova2Meeting)
    } else if str_eq(model, "nova-2-phonecall") {
        Some(Model::Nova2Phonecall)
    } else if str_eq(model, "nova-2-finance") {
        Some(Model::Nova2Finance)
    } else if str_eq(model, "nova-2-conversationalai") {
        Some(Model::Nova2Conversationalai)
    } else if str_eq(model, "nova-2-voicemail") {
        Some(Model::Nova2Voicemail)
    } else if str_eq(model, "nova-2-video") {
        Some(Model::Nova2Video)
    } else if str_eq(model, "nova-2-medical") {
        Some(Model::Nova2Medical)
    } else if str_eq(model, "nova-2-drivethru") {
        Some(Model::Nova2Drivethru)
    } else if str_eq(model, "nova-2-automotive") {
        Some(Model::Nova2Automotive)
    } else if str_eq(model, "nova-3-medical") {
        Some(Model::Nova3Medical)
    } else {
        None
    }
}

/// One word of a transcript with the speaker the provider assigned to it.
#[derive(Debug, Clone)]
pub struct Word {
    pub word: String,
    pub speaker: Option<i32>,
}

/// A word as plain values.
pub struct WordView {
    pub word: Seq<char>,
    pub speaker: Option<i32>,
}

impl View for Word {
    type V = WordView;

    open spec fn view(&self) -> WordView {
        WordView { word: self.word@, speaker: self.speaker }
    }
}

/// One reading of an utterance: its text as a whole and word by word.
#[derive(Debug, Clone)]
pub struct Alternative {
    pub transcript: String,
    pub words: Vec<Word>,
}

/// An alternative as plain values.
pub struct AlternativeView {
    pub transcript: Seq<char>,
    pub words: Seq<WordView>,
}

/// The words as plain values.
pub open spec fn word_views(words: Seq<Word>) -> Seq<WordView> {
    Seq::new(words.len(), |i: int| words[i]@)
}

impl View for Alternative {
    type V = AlternativeView;

    open spec fn view(&self) -> AlternativeView {
        AlternativeView { transcript: self.transcript@, words: word_views(self.words@) }
    }
}

/// The alternatives as plain values.
pub open spec fn alternative_views(alternatives: Seq<Alternative>) -> Seq<AlternativeView> {
    Seq::new(alternatives.len(), |i: int| alternatives[i]@)
}

/// What the provider sent, as far as the transcript needs it.
#[derive(Debug, Clone)]
pub enum StreamResponse {
    /// Transcribed speech, as one or more alternatives.
    TranscriptResponse { alternatives: Vec<Alternative> },
    /// Speech was detected.
    SpeechStartedResponse,
    /// An utterance ended.
    UtteranceEndResponse,
    /// The provider ended the stream.
    TerminalResponse,
    /// Any other message.
    Other,
}

/// A response as plain values.
pub enum ResponseView {
    Transcript(Seq<AlternativeView>),
    SpeechStarted,
    UtteranceEnd,
    Terminal,
    Other,
}

impl View for StreamResponse {
    type V = ResponseView;

    open spec fn view(&self) -> ResponseView {
        match self {
            StreamResponse::TranscriptResponse { alternatives } => ResponseView::Transcript(
                alternative_views(alternatives@),
            ),
            StreamResponse::SpeechStartedResponse => ResponseView::SpeechStarted,
            StreamResponse::UtteranceEndResponse => ResponseView::UtteranceEnd,
            StreamResponse::TerminalResponse => ResponseView::Terminal,
            StreamResponse::Other => ResponseView::Other,
        }
    }
}

/// Whether `c` is a Han ideograph, Hiragana or Katakana.
pub open spec fn is_cjk_char(c: char) -> bool {
    let u = c as u32;
    ||| 0x4E00 <= u <= 0x9FFF
    ||| 0x3400 <= u <= 0x4DBF
    ||| 0x3040 <= u <= 0x309F
    ||| 0x30A0 <= u <= 0x30FF
}

/// Whether `text` holds a CJK character.
pub open spec fn is_cjk(text: Seq<char>) -> bool {
    exists|i: int| 0 <= i < text.len() && is_cjk_char(#[trigger] text[i])
}

/// The tokens joined into one text: a single space between neighbours, and
/// none between two neighbours that are both CJK. Nothing separates a token
/// from an empty text before it.
pub open spec fn joined(tokens: Seq<Seq<char>>) -> Seq<char>
    decreases tokens.len(),
{
    if tokens.len() == 0 {
        Seq::empty()
    } else {
        let before = joined(tokens.drop_last());
        if before.len() > 0 && !(is_cjk(tokens[tokens.len() - 2]) && is_cjk(tokens.last())) {
            before + seq![' '] + tokens.last()
        } else {
            before + tokens.last()
        }
    }
}

/// The join rule for two tokens: they are joined without a space if both are
/// CJK, and with one space otherwise.
pub proof fn lemma_joined_pair(first: Seq<char>, second: Seq<char>)
    requires
        first.len() > 0,
    ensures
        joined(seq![first, second]) == if is_cjk(first) && is_cjk(second) {
            first + second
        } else {
            first + seq![' '] + second
        },
{
    let pair = seq![first, second];
    assert(pair.drop_last() =~= seq![first]);
    assert(seq![first].drop_last() =~= Seq::<Seq<char>>::empty());
    reveal_with_fuel(joined, 3);
    assert(joined(seq![first]) =~= first);
}

/// The join rule for a further token: it follows the text so far without a
/// space if it and the token before it are both CJK, and after one space
/// otherwise.
pub proof fn lemma_joined_next(tokens: Seq<Seq<char>>, next: Seq<char>)
    requires
        tokens.len() > 0,
        joined(tokens).len() > 0,
    ensures
        joined(tokens.push(next)) == if is_cjk(tokens.last()) && is_cjk(next) {
            joined(tokens) + next
        } else {
            joined(tokens) + seq![' '] + next
        },
{
    assert(tokens.push(next).drop_last() =~= tokens);
}

/// The texts of the words.
pub open spec fn tokens(words: Seq<WordView>) -> Seq<Seq<char>> {
    Seq::new(words.len(), |i: int| words[i].word)
}

/// Whether word `i` begins a new run: the word before it has a speaker, and
/// word `i` has another speaker or none. A word without a speaker does not
/// end its run: it is counted to the speaker that follows.
pub open spec fn starts_run(words: Seq<WordView>, i: int) -> bool {
    0 < i < words.len() && words[i - 1].speaker is Some && words[i].speaker != words[i - 1].speaker
}

/// Where the run begins that holds the last of the first `k` words.
pub open spec fn run_start(words: Seq<WordView>, k: int) -> int
    decreases k,
{
    if k <= 0 {
        0
    } else if starts_run(words, k - 1) {
        k - 1
    } else {
        run_start(words, k - 1)
    }
}

/// The result for the run of words from `from` up to `to`: the joined text
/// without the white space around it, for the speaker of the run's last word.
pub open spec fn run_result(words: Seq<WordView>, from: int, to: int) -> ResultView {
    ResultView {
        transcript: trimmed(joined(tokens(words.subrange(from, to)))),
        speaker_id: words[to - 1].speaker,
    }
}

/// The results for the runs that have ended within the first `k` words.
pub open spec fn completed_runs(words: Seq<WordView>, k: int) -> Seq<ResultView>
    decreases k,
{
    if k <= 0 {
        Seq::empty()
    } else if starts_run(words, k - 1) {
        completed_runs(words, k - 1).push(run_result(words, run_start(words, k - 1), k - 1))
    } else {
        completed_runs(words, k - 1)
    }
}

/// The results for one alternative: one for each run of a speaker, in order;
/// where the words end without a speaker, the alternative's whole text as one
/// result without a speaker, unless that text is empty.
pub open spec fn alternative_results(alternative: AlternativeView) -> Seq<ResultView> {
    let words = alternative.words;
    let n = words.len() as int;
    if n > 0 && words[n - 1].speaker is Some {
        completed_runs(words, n).push(run_result(words, run_start(words, n), n))
    } else if alternative.transcript.len() > 0 {
        completed_runs(words, n).push(
            ResultView { transcript: alternative.transcript, speaker_id: None },
        )
    } else {
        completed_runs(words, n)
    }
}

/// The results for the first `k` alternatives, in order.
pub open spec fn alternatives_results(alternatives: Seq<AlternativeView>, k: int) -> Seq<
    ResultView,
>
    decreases k,
{
    if k <= 0 {
        Seq::empty()
    } else {
        alternatives_results(alternatives, k - 1) + alternative_results(alternatives[k - 1])
    }
}

/// The results that a response gives rise to: those of its alternatives for a
/// transcript, the end-of-stream result for the provider's last message, and
/// none for anything else.
pub open spec fn response_results(response: ResponseView) -> Seq<ResultView> {
    match response {
        ResponseView::Transcript(alternatives) => alternatives_results(
            alternatives,
            alternatives.len() as int,
        ),
        ResponseView::Terminal => seq![
            ResultView { transcript: STREAM_ENDED@, speaker_id: None },
        ],
        _ => Seq::empty(),
    }
}

/// The parameters of a Deepgram streaming session.
#[derive(Debug, Clone)]
pub struct DeepgramTranscriber {
    api_key: String,
    sample_rate: u32,
    channels: u16,
    language: Option<Language>,
    model: Option<Model>,
}

/// The parameters of a session as plain values.
pub struct TranscriberView {
    pub api_key: Seq<char>,
    pub sample_rate: u32,
    pub channels: u16,
    pub language: Option<Language>,
    pub model: Option<Model>,
}

impl View for DeepgramTranscriber {
    type V = TranscriberView;

    closed spec fn view(&self) -> TranscriberView {
        TranscriberView {
            api_key: self.api_key@,
            sample_rate: self.sample_rate,
            channels: self.channels,
            language: self.language,
            model: self.model,
        }
    }
}

impl DeepgramTranscriber {
    /// The parameters of a transcriber made from a key, a language code and a
    /// model name: no audio format yet, and a language and a model only where
    /// the code and the name are known.
    pub open spec fn configured(
        api_key: Seq<char>,
        language_code: Seq<char>,
        model_name: Seq<char>,
    ) -> TranscriberView {
        TranscriberView {
            api_key,
            sample_rate: 0,
            channels: 0,
            language: language_of(language_code),
            model: model_of(model_name),
        }
    }

    /// A transcriber for the given key, language code and model name.
    pub fn new(api_key: &str, language_code: &str, model_name: &str) -> (transcriber: Self)
        ensures
            transcriber@ == Self::configured(api_key@, language_code@, model_name@),
    {
        Self {
            api_key: String::from_str(api_key),
            sample_rate: 0,
            channels: 0,
            language: parse_language_code(language_code),
            model: parse_model_name(model_name),
        }
    }

    /// Sets the audio format of the session.
    pub fn initialize(&mut self, sample_rate: u32, channels: u16)
        ensures
            final(self)@ == (TranscriberView { sample_rate, channels, ..old(self)@ }),
    {
        self.sample_rate = sample_rate;
        self.channels = channels;
    }

    pub fn api_key(&self) -> (key: &str)
        ensures
            key@ == self@.api_key,
    {
        self.api_key.as_str()
    }

    pub fn sample_rate(&self) -> (rate: u32)
        ensures
            rate == self@.sample_rate,
    {
        self.sample_rate
    }

    pub fn channels(&self) -> (channels: u16)
        ensures
            channels == self@.channels,
    {
        self.channels
    }

    pub fn language(&self) -> (language: Option<Language>)
        ensures
            language == self@.language,
    {
        self.language
    }

    pub fn model(&self) -> (model: Option<Model>)
        ensures
            model == self@.model,
    {
        self.model
    }

    /// Whether `text` holds a CJK character: a Han ideograph, Hiragana or
    /// Katakana.
    pub fn is_cjk(text: &str) -> (cjk: bool)
        ensures
            cjk == is_cjk(text@),
    {
        let n = text.unicode_len();
        let mut i: usize = 0;
        while i < n
            invariant
                i <= n,
                n == text@.len(),
                forall|j: int| 0 <= j < i ==> !is_cjk_char(#[trigger] text@[j]),
            decreases n - i,
        {
            let u: u32 = text.get_char(i) as u32;
            if (0x4E00 <= u && u <= 0x9FFF) || (0x3400 <= u && u <= 0x4DBF) || (0x3040 <= u && u
                <= 0x309F) || (0x30A0 <= u && u <= 0x30FF) {
                return true;
            }
            i += 1;
        }
        false
    }

    /// Groups the words of one alternative into results by speaker and adds
    /// them to `results`.
    fn format_alternative(alternative: &Alternative, results: &mut Vec<TranscriptionResult>)
        ensures
            result_views(final(results)@) == result_views(old(results)@) + alternative_results(
                alternative@,
            ),
    {
        let ghost earlier = result_views(results@);
        let ghost words = alternative@.words;
        let n = alternative.words.len();
        let mut current_speaker: Option<i32> = None;
        let mut speaker_message = String::new();
        let mut last_was_cjk = false;
        let mut k: usize = 0;
        assert(tokens(words.subrange(0, 0)) =~= Seq::<Seq<char>>::empty());
        assert(result_views(results@) =~= earlier + completed_runs(words, 0));
        while k < n
            invariant
                k <= n,
                n == alternative.words@.len(),
                words == alternative@.words,
                words.len() == n,
                0 <= run_start(words, k as int) <= k,
                k > 0 ==> run_start(words, k as int) < k,
                result_views(results@) == earlier + completed_runs(words, k as int),
                speaker_message@ == joined(tokens(words.subrange(run_start(words, k as int), k as int))),
                current_speaker == if k == 0 {
                    None
                } else {
                    words[k - 1].speaker
                },
                k > 0 ==> last_was_cjk == is_cjk(words[k - 1].word),
            decreases n - k,
        {
            let word = &alternative.words[k];
            assert(word@ == words[k as int]);
            let changed = match (word.speaker, current_speaker) {
                (Some(a), Some(b)) => a != b,
                (None, None) => false,
                _ => true,
            };
            assert(changed == (word.speaker != current_speaker));
            if changed {
                if let Some(speaker_id) = current_speaker {
                    let ghost before = results@;
                    results.push(
                        TranscriptionResult {
                            transcript: trim(speaker_message.as_str()),
                            speaker_id: Some(speaker_id),
                        },
                    );
                    assert(result_views(results@) =~= result_views(before).push(
                        run_result(words, run_start(words, k as int), k as int),
                    ));
                    speaker_message = String::new();
                    last_was_cjk = false;
                    assert(starts_run(words, k as int));
                    assert(tokens(words.subrange(k as int, k as int)) =~= Seq::<Seq<char>>::empty());
                }
                current_speaker = word.speaker;
            }
            let ghost start = run_start(words, k + 1);
            assert(start == if starts_run(words, k as int) {
                k as int
            } else {
                run_start(words, k as int)
            });
            let ghost run = tokens(words.subrange(start, k + 1));
            assert(run.drop_last() =~= tokens(words.subrange(start, k as int)));
            assert(run.last() == word.word@);
            assert(speaker_message@ == joined(run.drop_last()));
            assert(speaker_message@.len() > 0 ==> run.len() >= 2 && run[run.len() - 2] == words[k
                - 1].word);

            let current_is_cjk = Self::is_cjk(word.word.as_str());
            if !speaker_message.as_str().is_empty() && !(last_was_cjk && current_is_cjk) {
                push_char(&mut speaker_message, ' ');
            }
            speaker_message.append(word.word.as_str());
            last_was_cjk = current_is_cjk;
            assert(speaker_message@ =~= joined(run));
            assert(result_views(results@) =~= earlier + completed_runs(words, k + 1));
            k += 1;
        }
        let ghost done = results@;
        match current_speaker {
            Some(speaker_id) => {
                results.push(
                    TranscriptionResult {
                        transcript: trim(speaker_message.as_str()),
                        speaker_id: Some(speaker_id),
                    },
                );
                assert(result_views(results@) =~= result_views(done).push(
                    run_result(words, run_start(words, n as int), n as int),
                ));
            },
            None => {
                if !alternative.transcript.as_str().is_empty() {
                    results.push(
                        TranscriptionResult {
                            transcript: alternative.transcript.clone(),
                            speaker_id: None,
                        },
                    );
                    assert(result_views(results@) =~= result_views(done).push(
                        ResultView { transcript: alternative@.transcript, speaker_id: None },
                    ));
                }
            },
        }
        assert(result_views(results@) =~= earlier + alternative_results(alternative@));
    }

    /// The transcription results that a response of the provider gives rise
    /// to.
    pub fn format_response(response: &StreamResponse) -> (results: Vec<TranscriptionResult>)
        ensures
            result_views(results@) == response_results(response@),
    {
        let mut results: Vec<TranscriptionResult> = Vec::new();
        match response {
            StreamResponse::TranscriptResponse { alternatives } => {
                let n = alternatives.len();
                let mut k: usize = 0;
                assert(result_views(results@) =~= alternatives_results(
                    alternative_views(alternatives@),
                    0,
                ));
                while k < n
                    invariant
                        k <= n,
                        n == alternatives@.len(),
                        result_views(results@) == alternatives_results(
                            alternative_views(alternatives@),
                            k as int,
                        ),
                    decreases n - k,
                {
                    Self::format_alternative(&alternatives[k], &mut results);
                    k += 1;
                }
            },
            StreamResponse::TerminalResponse => {
                results.push(
                    TranscriptionResult {
                        transcript: String::from_str(STREAM_ENDED),
                        speaker_id: None,
                    },
                );
                assert(result_views(results@) =~= response_results(response@));
            },
            _ => {
                assert(result_views(results@) =~= response_results(response@));
            },
        }
        results
    }
}

} // verus!
