//! The data that the catalog, the generator and the validators exchange.

use vstd::prelude::*;
use crate::config_map::ConfigMap;
use crate::text::{clone_texts, texts};

verus! {

/// Whether a connector reads into Kafka or writes out of it.
#[derive(Debug, Clone, Copy, PartialEq, Eq, Structural)]
pub enum ConnectorType {
    Source,
    Sink,
}

/// The serialization formats that a connector can be told to use.
#[derive(Debug, Clone, Copy, PartialEq, Eq, Structural)]
pub enum DataFormat {
    Avro,
    Json,
    JsonSr,
    Protobuf,
    Parquet,
}

/// The token that stands for a format in a connector's configuration.
pub open spec fn wire_token(format: DataFormat) -> Seq<char> {
    match format {
        DataFormat::Avro => "AVRO"@,
        DataFormat::Json => "JSON"@,
        DataFormat::JsonSr => "JSON_SR"@,
        DataFormat::Protobuf => "PROTOBUF"@,
        DataFormat::Parquet => "PARQUET"@,
    }
}

/// The name under which a format is found in the `schema_formats` table of
/// the surrounding Terraform module.
pub open spec fn table_entry(format: DataFormat) -> Seq<char> {
    match format {
        DataFormat::Avro => "avro"@,
        DataFormat::Json => "json"@,
        DataFormat::JsonSr => "json_sr"@,
        DataFormat::Protobuf => "protobuf"@,
        DataFormat::Parquet => "parquet"@,
    }
}

impl DataFormat {
    /// The token that stands for the format in a connector's configuration.
    pub fn to_terraform_value(&self) -> (r: &'static str)
        ensures
            r@ == wire_token(*self),
    {
        match self {
            DataFormat::Avro => "AVRO",
            DataFormat::Json => "JSON",
            DataFormat::JsonSr => "JSON_SR",
            DataFormat::Protobuf => "PROTOBUF",
            DataFormat::Parquet => "PARQUET",
        }
    }

    /// The key of this format in the `schema_formats` table.
    pub fn table_key(&self) -> (r: &'static str)
        ensures
            r@ == table_entry(*self),
    {
        match self {
            DataFormat::Avro => "avro",
            DataFormat::Json => "json",
            DataFormat::JsonSr => "json_sr",
            DataFormat::Protobuf => "protobuf",
            DataFormat::Parquet => "parquet",
        }
    }
}

/// One configuration field of a connector.
#[derive(Debug)]
pub struct ConfigField {
    pub name: String,
    pub display_name: String,
    pub description: String,
    pub field_type: String,
    pub required: bool,
    pub default_value: Option<String>,
    pub valid_values: Option<Vec<String>>,
}

/// What a field holds.
#[verifier::ext_equal]
pub struct ConfigFieldView {
    pub name: Seq<char>,
    pub display_name: Seq<char>,
    pub description: Seq<char>,
    pub field_type: Seq<char>,
    pub required: bool,
    pub default_value: Option<Seq<char>>,
    pub valid_values: Option<Seq<Seq<char>>>,
}

/// The view of a string that may be there.
pub open spec fn option_text(value: Option<String>) -> Option<Seq<char>> {
    match value {
        Some(s) => Some(s@),
        None => None,
    }
}

/// The views of a list of strings that may be there.
pub open spec fn option_texts(values: Option<Vec<String>>) -> Option<Seq<Seq<char>>> {
    match values {
        Some(v) => Some(texts(v@)),
        None => None,
    }
}

impl View for ConfigField {
    type V = ConfigFieldView;

    open spec fn view(&self) -> ConfigFieldView {
        ConfigFieldView {
            name: self.name@,
            display_name: self.display_name@,
            description: self.description@,
            field_type: self.field_type@,
            required: self.required,
            default_value: option_text(self.default_value),
            valid_values: option_texts(self.valid_values),
        }
    }
}

impl Clone for ConfigField {
    fn clone(&self) -> (r: ConfigField)
        ensures
            r@ == self@,
    {
        ConfigField {
            name: self.name.clone(),
            display_name: self.display_name.clone(),
            description: self.description.clone(),
            field_type: self.field_type.clone(),
            required: self.required,
            default_value: match &self.default_value {
                Some(s) => Some(s.clone()),
                None => None,
            },
            valid_values: match &self.valid_values {
                Some(v) => Some(clone_texts(v)),
                None => None,
            },
        }
    }
}

/// The views of a list of fields.
pub open spec fn field_views(fields: Seq<ConfigField>) -> Seq<ConfigFieldView> {
    Seq::new(fields.len(), |i: int| fields[i]@)
}

/// A list of new fields that hold the same values.
pub fn clone_fields(fields: &Vec<ConfigField>) -> (r: Vec<ConfigField>)
    ensures
        field_views(r@) == field_views(fields@),
{
    let mut out: Vec<ConfigField> = Vec::new();
    let mut i: usize = 0;
    while i < fields.len()
        invariant
            0 <= i <= fields.len(),
            out@.len() == i,
            forall|j: int| 0 <= j < i ==> out@[j]@ == fields@[j]@,
        decreases fields.len() - i,
    {
        out.push(fields[i].clone());
        i = i + 1;
    }
    assert(field_views(out@) =~= field_views(fields@));
    out
}

/// A catalog entry: what a connector is called and which fields it takes.
#[derive(Debug)]
pub struct ConnectorDefinition {
    pub name: String,
    pub display_name: String,
    pub connector_class: String,
    pub connector_type: ConnectorType,
    pub description: String,
    pub required_configs: Vec<ConfigField>,
    pub optional_configs: Vec<ConfigField>,
    pub sensitive_configs: Vec<String>,
}

/// What a definition holds.
#[verifier::ext_equal]
pub struct ConnectorDefinitionView {
    pub name: Seq<char>,
    pub display_name: Seq<char>,
    pub connector_class: Seq<char>,
    pub connector_type: ConnectorType,
    pub description: Seq<char>,
    pub required_configs: Seq<ConfigFieldView>,
    pub optional_configs: Seq<ConfigFieldView>,
    pub sensitive_configs: Seq<Seq<char>>,
}

impl View for ConnectorDefinition {
    type V = ConnectorDefinitionView;

    open spec fn view(&self) -> ConnectorDefinitionView {
        ConnectorDefinitionView {
            name: self.name@,
            display_name: self.display_name@,
            connector_class: self.connector_class@,
            connector_type: self.connector_type,
            description: self.description@,
            required_configs: field_views(self.required_configs@),
            optional_configs: field_views(self.optional_configs@),
            sensitive_configs: texts(self.sensitive_configs@),
        }
    }
}

impl Clone for ConnectorDefinition {
    fn clone(&self) -> (r: ConnectorDefinition)
        ensures
            r@ == self@,
    {
        ConnectorDefinition {
            name: self.name.clone(),
            display_name: self.display_name.clone(),
            connector_class: self.connector_class.clone(),
            connector_type: self.connector_type,
            description: self.description.clone(),
            required_configs: clone_fields(&self.required_configs),
            optional_configs: clone_fields(&self.optional_configs),
            sensitive_configs: clone_texts(&self.sensitive_configs),
        }
    }
}

/// The views of a list of definitions.
pub open spec fn definition_views(items: Seq<ConnectorDefinition>) -> Seq<
    ConnectorDefinitionView,
> {
    Seq::new(items.len(), |i: int| items[i]@)
}

/// A connector as it was read from a Terraform document.
#[derive(Debug)]
pub struct ConnectorConfig {
    pub name: String,
    pub connector_class: String,
    pub config: ConfigMap,
    pub sensitive_config: ConfigMap,
}

#[verifier::ext_equal]
/// A parsed connector with its settings in the order in which they were
/// first set.
pub struct ConnectorConfigView {
    pub name: Seq<char>,
    pub connector_class: Seq<char>,
    pub config: Seq<(Seq<char>, Seq<char>)>,
    pub sensitive_config: Seq<(Seq<char>, Seq<char>)>,
}

impl View for ConnectorConfig {
    type V = ConnectorConfigView;

    open spec fn view(&self) -> ConnectorConfigView {
        ConnectorConfigView {
            name: self.name@,
            connector_class: self.connector_class@,
            config: self.config.entries(),
            sensitive_config: self.sensitive_config.entries(),
        }
    }
}

impl ConnectorConfig {
    /// Both maps are well formed.
    pub open spec fn wf(&self) -> bool {
        self.config.wf() && self.sensitive_config.wf()
    }
}

impl Clone for ConnectorConfig {
    fn clone(&self) -> (r: ConnectorConfig)
        ensures
            r@ == self@,
            r.wf() == self.wf(),
    {
        ConnectorConfig {
            name: self.name.clone(),
            connector_class: self.connector_class.clone(),
            config: self.config.clone(),
            sensitive_config: self.sensitive_config.clone(),
        }
    }
}

/// The views of a list of parsed connectors.
pub open spec fn config_views(items: Seq<ConnectorConfig>) -> Seq<ConnectorConfigView> {
    Seq::new(items.len(), |i: int| items[i]@)
}

/// A Confluent environment and the clusters in it.
#[derive(Debug)]
pub struct Environment {
    pub name: String,
    pub id: String,
    pub cluster_id: String,
    pub schema_registry_cluster_id: String,
}

impl Clone for Environment {
    fn clone(&self) -> (r: Environment)
        ensures
            r.name@ == self.name@,
            r.id@ == self.id@,
            r.cluster_id@ == self.cluster_id@,
            r.schema_registry_cluster_id@ == self.schema_registry_cluster_id@,
    {
        Environment {
            name: self.name.clone(),
            id: self.id.clone(),
            cluster_id: self.cluster_id.clone(),
            schema_registry_cluster_id: self.schema_registry_cluster_id.clone(),
        }
    }
}

/// What the command line gives for a generation run.
#[derive(Debug)]
pub struct ConnectorOptions {
    pub name: Option<String>,
    pub output: Option<String>,
}

impl Default for ConnectorOptions {
    fn default() -> (r: ConnectorOptions)
        ensures
            r.name is None,
            r.output is None,
    {
        ConnectorOptions { name: None, output: None }
    }
}

/// What the generator needs to write one resource declaration.
#[derive(Debug)]
pub struct TerraformConfigOptions {
    pub connector_name: String,
    pub connector: ConnectorDefinition,
    pub topics: Vec<String>,
    pub input_data_format: Option<DataFormat>,
    pub output_data_format: Option<DataFormat>,
}

/// What the options hold.
#[verifier::ext_equal]
pub struct TerraformConfigOptionsView {
    pub connector_name: Seq<char>,
    pub connector: ConnectorDefinitionView,
    pub topics: Seq<Seq<char>>,
    pub input_data_format: Option<DataFormat>,
    pub output_data_format: Option<DataFormat>,
}

impl View for TerraformConfigOptions {
    type V = TerraformConfigOptionsView;

    open spec fn view(&self) -> TerraformConfigOptionsView {
        TerraformConfigOptionsView {
            connector_name: self.connector_name@,
            connector: self.connector@,
            topics: texts(self.topics@),
            input_data_format: self.input_data_format,
            output_data_format: self.output_data_format,
        }
    }
}

} // verus!
