//! The settings of one regression, read from its `config.yaml`.

use vstd::prelude::*;
use crate::text::string_views;
use crate::yaml::{
    config_tags, document_seq, extract_tags_from_config, load_yaml, yaml_documents, yaml_index,
    yaml_lookup, yaml_str, YamlValue,
};

verus! {

/// A string setting that every regression configuration must have.
#[derive(Clone, Copy, Debug, PartialEq, Eq, Structural)]
pub enum ConfigField {
    /// `regbase`: the example directory that the regression runs in.
    RegBase,
    /// `sourcedata`: the file, inside that directory, that the command writes.
    SourceData,
    /// `targetdata`: the file, inside the regression's directory, that holds
    /// the expected output.
    TargetData,
    /// `regcommand`: the shell command that produces the output.
    RegCommand,
}

/// Why a configuration text gives no usable configuration.
#[derive(Clone, Copy, Debug, PartialEq, Eq, Structural)]
pub enum ConfigDefect {
    /// The text is no YAML.
    Unparsable,
    /// The text holds no YAML document.
    NoDocument,
    /// The first document has no string value for this setting.
    MissingField(ConfigField),
}

/// The settings of one regression.
pub struct RegressionConfig {
    pub regbase: String,
    pub sourcedata: String,
    pub targetdata: String,
    pub regcommand: String,
    pub tags: Vec<String>,
}

/// The settings of one regression, as values.
pub struct ConfigView {
    pub regbase: Seq<char>,
    pub sourcedata: Seq<char>,
    pub targetdata: Seq<char>,
    pub regcommand: Seq<char>,
    pub tags: Seq<Seq<char>>,
}

impl View for RegressionConfig {
    type V = ConfigView;

    open spec fn view(&self) -> ConfigView {
        ConfigView {
            regbase: self.regbase@,
            sourcedata: self.sourcedata@,
            targetdata: self.targetdata@,
            regcommand: self.regcommand@,
            tags: string_views(self.tags@),
        }
    }
}

/// The key under which a setting stands.
pub open spec fn field_key(field: ConfigField) -> Seq<char> {
    match field {
        ConfigField::RegBase => "regbase"@,
        ConfigField::SourceData => "sourcedata"@,
        ConfigField::TargetData => "targetdata"@,
        ConfigField::RegCommand => "regcommand"@,
    }
}

/// The string value of a setting in a configuration node, if it has one.
pub open spec fn field_value(doc: YamlValue, field: ConfigField) -> Option<Seq<char>> {
    yaml_str(yaml_index(doc, field_key(field)))
}

/// The configuration that a document describes: the four string settings,
/// read in the order `regbase`, `sourcedata`, `targetdata`, `regcommand`
/// (the first one missing is reported), and the document's tags.
pub open spec fn config_of_document(doc: YamlValue) -> Result<ConfigView, ConfigDefect> {
    if field_value(doc, ConfigField::RegBase) is None {
        Err(ConfigDefect::MissingField(ConfigField::RegBase))
    } else if field_value(doc, ConfigField::SourceData) is None {
        Err(ConfigDefect::MissingField(ConfigField::SourceData))
    } else if field_value(doc, ConfigField::TargetData) is None {
        Err(ConfigDefect::MissingField(ConfigField::TargetData))
    } else if field_value(doc, ConfigField::RegCommand) is None {
        Err(ConfigDefect::MissingField(ConfigField::RegCommand))
    } else {
        Ok(
            ConfigView {
                regbase: field_value(doc, ConfigField::RegBase)->0,
                sourcedata: field_value(doc, ConfigField::SourceData)->0,
                targetdata: field_value(doc, ConfigField::TargetData)->0,
                regcommand: field_value(doc, ConfigField::RegCommand)->0,
                tags: config_tags(doc),
            },
        )
    }
}

/// The configuration that the first of the parsed documents describes.
pub open spec fn config_of_documents(docs: Option<Seq<YamlValue>>) -> Result<
    ConfigView,
    ConfigDefect,
> {
    match docs {
        None => Err(ConfigDefect::Unparsable),
        Some(d) => if d.len() == 0 {
            Err(ConfigDefect::NoDocument)
        } else {
            config_of_document(d[0])
        },
    }
}

/// The configuration that a `config.yaml` text describes.
pub open spec fn config_of_text(text: Seq<char>) -> Result<ConfigView, ConfigDefect> {
    config_of_documents(yaml_documents(text))
}

/// A configuration result, by view.
pub open spec fn config_result_view(r: Result<RegressionConfig, ConfigDefect>) -> Result<
    ConfigView,
    ConfigDefect,
> {
    match r {
        Ok(c) => Ok(c@),
        Err(e) => Err(e),
    }
}

/// The key under which `field` stands.
pub fn field_name(field: ConfigField) -> (key: &'static str)
    ensures
        key@ == field_key(field),
{
    proof {
        reveal_strlit("regbase");
        reveal_strlit("sourcedata");
        reveal_strlit("targetdata");
        reveal_strlit("regcommand");
    }
    match field {
        ConfigField::RegBase => "regbase",
        ConfigField::SourceData => "sourcedata",
        ConfigField::TargetData => "targetdata",
        ConfigField::RegCommand => "regcommand",
    }
}

/// The string value of `field` in `doc`.
pub fn field_string(doc: &YamlValue, field: ConfigField) -> (res: Option<String>)
    ensures
        match res {
            Some(s) => field_value(*doc, field) == Some(s@),
            None => field_value(*doc, field) is None,
        },
{
    match yaml_lookup(doc, field_name(field)) {
        Some(YamlValue::Str(s)) => Some(s.clone()),
        _ => None,
    }
}

/// The configuration that a document describes.
pub fn config_from_document(doc: &YamlValue) -> (res: Result<RegressionConfig, ConfigDefect>)
    ensures
        config_result_view(res) == config_of_document(*doc),
{
    let regbase = match field_string(doc, ConfigField::RegBase) {
        Some(s) => s,
        None => return Err(ConfigDefect::MissingField(ConfigField::RegBase)),
    };
    let sourcedata = match field_string(doc, ConfigField::SourceData) {
        Some(s) => s,
        None => return Err(ConfigDefect::MissingField(ConfigField::SourceData)),
    };
    let targetdata = match field_string(doc, ConfigField::TargetData) {
        Some(s) => s,
        None => return Err(ConfigDefect::MissingField(ConfigField::TargetData)),
    };
    let regcommand = match field_string(doc, ConfigField::RegCommand) {
        Some(s) => s,
        None => return Err(ConfigDefect::MissingField(ConfigField::RegCommand)),
    };
    let tags = extract_tags_from_config(doc);
    Ok(RegressionConfig { regbase, sourcedata, targetdata, regcommand, tags })
}

/// The configuration that the first of the parsed documents describes.
pub fn config_from_documents(docs: &Option<Vec<YamlValue>>) -> (res: Result<
    RegressionConfig,
    ConfigDefect,
>)
    ensures
        config_result_view(res) == config_of_documents(document_seq(*docs)),
{
    match docs {
        None => Err(ConfigDefect::Unparsable),
        Some(d) => if d.len() == 0 {
            Err(ConfigDefect::NoDocument)
        } else {
            config_from_document(&d[0])
        },
    }
}

/// The configuration that a `config.yaml` text describes.
pub fn parse_regression_config(text: &str) -> (res: Result<RegressionConfig, ConfigDefect>)
    ensures
        config_result_view(res) == config_of_text(text@),
{
    let docs = load_yaml(text);
    config_from_documents(&docs)
}

/// The settings of a configuration are the string values that its first
/// document holds under the keys `regbase`, `sourcedata`, `targetdata` and
/// `regcommand`, and its tags are those of that document.
pub proof fn law_settings_come_from_their_keys(doc: YamlValue)
    ensures
        config_of_document(doc) is Ok ==> {
            let c = config_of_document(doc)->Ok_0;
            &&& yaml_str(yaml_index(doc, "regbase"@)) == Some(c.regbase)
            &&& yaml_str(yaml_index(doc, "sourcedata"@)) == Some(c.sourcedata)
            &&& yaml_str(yaml_index(doc, "targetdata"@)) == Some(c.targetdata)
            &&& yaml_str(yaml_index(doc, "regcommand"@)) == Some(c.regcommand)
            &&& c.tags == config_tags(doc)
        },
        config_of_document(doc) is Err <==> (yaml_str(yaml_index(doc, "regbase"@)) is None
            || yaml_str(yaml_index(doc, "sourcedata"@)) is None || yaml_str(
            yaml_index(doc, "targetdata"@),
        ) is None || yaml_str(yaml_index(doc, "regcommand"@)) is None),
{
}

} // verus!
