//! The schema of the application's settings.

use vstd::prelude::*;
use vstd::string::*;
use crate::audio::{names, AudioError};
use crate::config::manager::ConfigManager;
use crate::config::model::ConfigView;
use crate::config::schema::{
    lemma_node_views, node_views, option_views, ConfigEntry, ConfigField, ConfigGroup, ConfigNode,
    EntryView, FieldView, GroupView, NodeView, NumberField, NumberView, OptionView, SelectOption,
    TextField, TextView,
};

verus! {

/// The key of the select field that holds the input device.
pub const DEVICE_KEY: &'static str = "audio.input.device";

/// The option value that stands for "no device".
pub const NO_DEVICES: &'static str = "__no_devices__";

/// An option as plain values.
pub open spec fn option(value: &str, label: &str) -> OptionView {
    OptionView { value: value@, label: label@ }
}

/// One option for each device, named and labelled by the device.
pub open spec fn device_options(devices: Seq<Seq<char>>) -> Seq<OptionView> {
    Seq::new(devices.len(), |i: int| OptionView { value: devices[i], label: devices[i] })
}

/// The default and the options of the device field for an enumeration of
/// input devices: the devices with the first as default, or a single
/// placeholder that says why there is none.
pub open spec fn device_choice(devices: Result<Seq<Seq<char>>, AudioError>) -> (
    Seq<char>,
    Seq<OptionView>,
) {
    match devices {
        Ok(found) => if found.len() > 0 {
            (found[0], device_options(found))
        } else {
            (NO_DEVICES@, seq![option(NO_DEVICES, "No input devices detected")])
        },
        Err(_) => (NO_DEVICES@, seq![option(NO_DEVICES, "Audio device enumeration failed")]),
    }
}

/// An enumeration of input devices as plain values.
pub open spec fn enumeration(devices: Result<Vec<String>, AudioError>) -> Result<
    Seq<Seq<char>>,
    AudioError,
> {
    match devices {
        Ok(found) => Ok(names(found@)),
        Err(error) => Err(error),
    }
}

/// One option for each device.
pub fn device_option_list(found: &Vec<String>) -> (options: Vec<SelectOption>)
    ensures
        option_views(options@) == device_options(names(found@)),
{
    let mut options: Vec<SelectOption> = Vec::new();
    let n = found.len();
    let mut i: usize = 0;
    while i < n
        invariant
            i <= n,
            n == found@.len(),
            options@.len() == i,
            forall|j: int|
                0 <= j < i ==> (#[trigger] options@[j])@ == device_options(names(found@))[j],
        decreases n - i,
    {
        options.push(SelectOption::new(found[i].as_str(), found[i].as_str()));
        i += 1;
    }
    assert(option_views(options@) =~= device_options(names(found@)));
    options
}

/// The single option that stands for "no device", with a label that says why
/// there is none.
pub fn placeholder_option_list(label: &str) -> (options: Vec<SelectOption>)
    ensures
        option_views(options@) == seq![option(NO_DEVICES, label)],
{
    let mut options: Vec<SelectOption> = Vec::new();
    options.push(SelectOption::new(NO_DEVICES, label));
    assert(option_views(options@) =~= seq![option(NO_DEVICES, label)]);
    options
}

/// The default and the options of the device field.
pub fn audio_device_select_options(devices: &Result<Vec<String>, AudioError>) -> (choice: (
    String,
    Vec<SelectOption>,
))
    ensures
        choice.0@ == device_choice(enumeration(*devices)).0,
        option_views(choice.1@) == device_choice(enumeration(*devices)).1,
{
    match devices {
        Ok(found) => {
            if found.len() > 0 {
                (found[0].clone(), device_option_list(found))
            } else {
                let mut options: Vec<SelectOption> = Vec::new();
                options.push(SelectOption::new(NO_DEVICES, "No input devices detected"));
                assert(option_views(options@) =~= seq![
                    option(NO_DEVICES, "No input devices detected"),
                ]);
                (String::from_str(NO_DEVICES), options)
            }
        },
        Err(_) => {
            let mut options: Vec<SelectOption> = Vec::new();
            options.push(SelectOption::new(NO_DEVICES, "Audio device enumeration failed"));
            assert(option_views(options@) =~= seq![
                option(NO_DEVICES, "Audio device enumeration failed"),
            ]);
            (String::from_str(NO_DEVICES), options)
        },
    }
}

/// An entry with a description, as plain values.
pub open spec fn entry(key: &str, label: &str, description: &str, field: FieldView) -> NodeView {
    NodeView::Entry(
        EntryView { key: key@, label: label@, description: Some(description@), field },
    )
}

/// A group as plain values.
pub open spec fn group(
    key: &str,
    label: &str,
    description: Option<&str>,
    children: Seq<NodeView>,
) -> NodeView {
    NodeView::Group(
        GroupView {
            key: key@,
            label: label@,
            description: match description {
                Some(text) => Some(text@),
                None => None,
            },
            children,
        },
    )
}

/// A number field as plain values.
pub open spec fn number(
    default: i64,
    min: i64,
    max: i64,
    step: i64,
    precision: u8,
    unit: Option<&str>,
) -> FieldView {
    FieldView::Number(
        NumberView {
            default,
            min: Some(min),
            max: Some(max),
            step: Some(step),
            precision: Some(precision),
            unit: match unit {
                Some(text) => Some(text@),
                None => None,
            },
        },
    )
}

/// The options of the accent colour.
pub open spec fn accent_options() -> Seq<OptionView> {
    seq![
        option("blue", "Ocean Blue"),
        option("cyan", "Clear Cyan"),
        option("magenta", "Vibrant Magenta"),
        option("amber", "Warm Amber"),
        option("green", "Bright Green"),
    ]
}

/// The options of the transcription language.
pub open spec fn language_options() -> Seq<OptionView> {
    seq![
        option("en-US", "English (US)"),
        option("en-GB", "English (UK)"),
        option("en", "English (Generic)"),
        option("es", "Spanish"),
        option("es-LATAM", "Spanish (LATAM)"),
        option("fr", "French"),
        option("de", "German"),
        option("it", "Italian"),
        option("pt-BR", "Portuguese (Brazil)"),
        option("hi", "Hindi"),
        option("ja", "Japanese"),
        option("ko", "Korean"),
    ]
}

/// The settings of the interface.
pub open spec fn interface_settings() -> NodeView {
    group(
        "ui",
        "Interface",
        Some("Tune how the terminal interface behaves."),
        seq![
            group(
                "ui.behavior",
                "Behavior",
                None,
                seq![
                    entry(
                        "ui.behavior.auto_scroll",
                        "Auto-scroll Transcripts",
                        "Keep the most recent transcription in view automatically.",
                        FieldView::Toggle { default: true },
                    ),
                    entry(
                        "ui.behavior.compact_mode",
                        "Compact Layout",
                        "Reduce spacing to fit more content on screen.",
                        FieldView::Toggle { default: false },
                    ),
                ],
            ),
            group(
                "ui.theme",
                "Theme",
                Some("Personalize highlight and accent colors."),
                seq![
                    entry(
                        "ui.theme.accent_color",
                        "Accent Color",
                        "Highlight color used for selections and dialogs.",
                        FieldView::Select { default: "blue"@, options: accent_options() },
                    ),
                    entry(
                        "ui.theme.brightness",
                        "Theme Brightness",
                        "Scale text brightness for better readability.",
                        number(1000000, 600000, 1400000, 50000, 2, None),
                    ),
                ],
            ),
        ],
    )
}

/// The settings of audio capture, with the given default and options for the
/// input device.
pub open spec fn audio_settings(device: Seq<char>, devices: Seq<OptionView>) -> NodeView {
    group(
        "audio",
        "Audio",
        Some("Control input capture characteristics."),
        seq![
            group(
                "audio.input",
                "Input",
                None,
                seq![
                    entry(
                        "audio.input.normalization_level",
                        "Normalization Level",
                        "Target loudness (in dBFS) applied before streaming audio.",
                        number(-18000000i64, -40000000i64, 0, 1000000, 0, Some("dB")),
                    ),
                    entry(
                        "audio.input.device",
                        "Input Device",
                        "Select the microphone or input device Fortis should use.",
                        FieldView::Select { default: device, options: devices },
                    ),
                ],
            ),
        ],
    )
}

/// The settings of the transcriber.
pub open spec fn transcriber_settings() -> NodeView {
    group(
        "transcriber",
        "Transcriber",
        Some("Configure speech-to-text providers."),
        seq![
            group(
                "transcriber.deepgram",
                "Deepgram",
                Some("Options for the Deepgram streaming API."),
                seq![
                    entry(
                        "transcriber.deepgram.api_key",
                        "API Key",
                        "Override the DEEPGRAM_API_KEY environment variable with a stored key.",
                        FieldView::Text(
                            TextView {
                                default: ""@,
                                placeholder: Some("Falls back to DEEPGRAM_API_KEY"@),
                                secret: true,
                                max_length: Some(128),
                            },
                        ),
                    ),
                    entry(
                        "transcriber.deepgram.language",
                        "Language",
                        "Primary language hint sent with Deepgram streaming requests.",
                        FieldView::Select { default: "en-US"@, options: language_options() },
                    ),
                ],
            ),
        ],
    )
}

/// The schema of the application's settings for an enumeration of input
/// devices.
pub open spec fn default_settings(devices: Result<Seq<Seq<char>>, AudioError>) -> GroupView {
    GroupView {
        key: "root"@,
        label: "Settings"@,
        description: None,
        children: seq![
            interface_settings(),
            audio_settings(device_choice(devices).0, device_choice(devices).1),
            transcriber_settings(),
        ],
    }
}

fn entry_node(key: &str, label: &str, description: &str, field: ConfigField) -> (node: ConfigNode)
    ensures
        node@ == entry(key, label, description, field@),
{
    ConfigNode::Entry(ConfigEntry::new(key, label, field).with_description(description))
}

fn group_node(key: &str, label: &str, description: Option<&str>, children: Vec<ConfigNode>) -> (node:
    ConfigNode)
    ensures
        node@ == group(key, label, description, node_views(children@)),
{
    let plain = ConfigGroup::new(key, label);
    let described = match description {
        Some(text) => plain.with_description(text),
        None => plain,
    };
    ConfigNode::Group(described.with_children(children))
}

fn one_node(first: ConfigNode) -> (nodes: Vec<ConfigNode>)
    ensures
        node_views(nodes@) == seq![first@],
{
    let mut nodes: Vec<ConfigNode> = Vec::new();
    nodes.push(first);
    proof {
        lemma_node_views(nodes@);
        assert(node_views(nodes@) =~= seq![first@]);
    }
    nodes
}

fn two_nodes(first: ConfigNode, second: ConfigNode) -> (nodes: Vec<ConfigNode>)
    ensures
        node_views(nodes@) == seq![first@, second@],
{
    let mut nodes: Vec<ConfigNode> = Vec::new();
    nodes.push(first);
    nodes.push(second);
    proof {
        lemma_node_views(nodes@);
        assert(node_views(nodes@) =~= seq![first@, second@]);
    }
    nodes
}

fn three_nodes(first: ConfigNode, second: ConfigNode, third: ConfigNode) -> (nodes: Vec<ConfigNode>)
    ensures
        node_views(nodes@) == seq![first@, second@, third@],
{
    let mut nodes: Vec<ConfigNode> = Vec::new();
    nodes.push(first);
    nodes.push(second);
    nodes.push(third);
    proof {
        lemma_node_views(nodes@);
        assert(node_views(nodes@) =~= seq![first@, second@, third@]);
    }
    nodes
}

fn accent_choices() -> (options: Vec<SelectOption>)
    ensures
        option_views(options@) == accent_options(),
{
    let mut options: Vec<SelectOption> = Vec::new();
    options.push(SelectOption::new("blue", "Ocean Blue"));
    options.push(SelectOption::new("cyan", "Clear Cyan"));
    options.push(SelectOption::new("magenta", "Vibrant Magenta"));
    options.push(SelectOption::new("amber", "Warm Amber"));
    options.push(SelectOption::new("green", "Bright Green"));
    assert(option_views(options@) =~= accent_options());
    options
}

fn language_choices() -> (options: Vec<SelectOption>)
    ensures
        option_views(options@) == language_options(),
{
    let mut options: Vec<SelectOption> = Vec::new();
    options.push(SelectOption::new("en-US", "English (US)"));
    options.push(SelectOption::new("en-GB", "English (UK)"));
    options.push(SelectOption::new("en", "English (Generic)"));
    options.push(SelectOption::new("es", "Spanish"));
    options.push(SelectOption::new("es-LATAM", "Spanish (LATAM)"));
    options.push(SelectOption::new("fr", "French"));
    options.push(SelectOption::new("de", "German"));
    options.push(SelectOption::new("it", "Italian"));
    options.push(SelectOption::new("pt-BR", "Portuguese (Brazil)"));
    options.push(SelectOption::new("hi", "Hindi"));
    options.push(SelectOption::new("ja", "Japanese"));
    options.push(SelectOption::new("ko", "Korean"));
    assert(option_views(options@) =~= language_options());
    options
}

fn interface_group() -> (node: ConfigNode)
    ensures
        node@ == interface_settings(),
{
    let behavior = group_node(
        "ui.behavior",
        "Behavior",
        None,
        two_nodes(
            entry_node(
                "ui.behavior.auto_scroll",
                "Auto-scroll Transcripts",
                "Keep the most recent transcription in view automatically.",
                ConfigField::Toggle { default: true },
            ),
            entry_node(
                "ui.behavior.compact_mode",
                "Compact Layout",
                "Reduce spacing to fit more content on screen.",
                ConfigField::Toggle { default: false },
            ),
        ),
    );
    let theme = group_node(
        "ui.theme",
        "Theme",
        Some("Personalize highlight and accent colors."),
        two_nodes(
            entry_node(
                "ui.theme.accent_color",
                "Accent Color",
                "Highlight color used for selections and dialogs.",
                ConfigField::Select { default: String::from_str("blue"), options: accent_choices() },
            ),
            entry_node(
                "ui.theme.brightness",
                "Theme Brightness",
                "Scale text brightness for better readability.",
                ConfigField::Number(
                    NumberField::new(1000000).with_bounds(600000, 1400000).with_step(
                        50000,
                    ).with_precision(2),
                ),
            ),
        ),
    );
    group_node(
        "ui",
        "Interface",
        Some("Tune how the terminal interface behaves."),
        two_nodes(behavior, theme),
    )
}

fn audio_group(device: String, devices: Vec<SelectOption>) -> (node: ConfigNode)
    ensures
        node@ == audio_settings(device@, option_views(devices@)),
{
    let input = group_node(
        "audio.input",
        "Input",
        None,
        two_nodes(
            entry_node(
                "audio.input.normalization_level",
                "Normalization Level",
                "Target loudness (in dBFS) applied before streaming audio.",
                ConfigField::Number(
                    NumberField::new(-18000000).with_bounds(-40000000, 0).with_step(
                        1000000,
                    ).with_precision(0).with_unit("dB"),
                ),
            ),
            entry_node(
                "audio.input.device",
                "Input Device",
                "Select the microphone or input device Fortis should use.",
                ConfigField::Select { default: device, options: devices },
            ),
        ),
    );
    group_node("audio", "Audio", Some("Control input capture characteristics."), one_node(input))
}

fn transcriber_group() -> (node: ConfigNode)
    ensures
        node@ == transcriber_settings(),
{
    let deepgram = group_node(
        "transcriber.deepgram",
        "Deepgram",
        Some("Options for the Deepgram streaming API."),
        two_nodes(
            entry_node(
                "transcriber.deepgram.api_key",
                "API Key",
                "Override the DEEPGRAM_API_KEY environment variable with a stored key.",
                ConfigField::Text(
                    TextField::new("").with_placeholder("Falls back to DEEPGRAM_API_KEY").secret(
                        true,
                    ).with_max_length(128),
                ),
            ),
            entry_node(
                "transcriber.deepgram.language",
                "Language",
                "Primary language hint sent with Deepgram streaming requests.",
                ConfigField::Select {
                    default: String::from_str("en-US"),
                    options: language_choices(),
                },
            ),
        ),
    );
    group_node(
        "transcriber",
        "Transcriber",
        Some("Configure speech-to-text providers."),
        one_node(deepgram),
    )
}

/// The schema of the application's settings for an enumeration of input
/// devices.
pub fn default_schema(devices: &Result<Vec<String>, AudioError>) -> (schema: ConfigGroup)
    ensures
        schema@ == default_settings(enumeration(*devices)),
{
    let (default_audio_device, audio_device_options) = audio_device_select_options(devices);
    ConfigGroup::new("root", "Settings").with_children(
        three_nodes(
            interface_group(),
            audio_group(default_audio_device, audio_device_options),
            transcriber_group(),
        ),
    )
}

impl ConfigManager {
    /// A manager for the application's settings, with no value set.
    pub fn with_default_schema(devices: &Result<Vec<String>, AudioError>) -> (manager: Self)
        ensures
            manager.wf(),
            manager@ == (ConfigView {
                root: default_settings(enumeration(*devices)),
                values: Map::empty(),
                unsaved: false,
            }),
    {
        Self::new(default_schema(devices))
    }
}

} // verus!
