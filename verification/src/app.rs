//! Reading connector declarations back out of a Terraform document, checking
//! the shape of such declarations, and generating without questions.

use vstd::prelude::*;
use crate::config_map::{ConfigMap, entries_extend, entries_insert, entries_map};
use crate::connectors::{catalog, named, of_type, validation_result};
use crate::document::{
    BodyView, ExprView, KeyView, StructureView, TfBody, TfExpression, TfStructure,
    expression_views, lemma_expression_views, lemma_structure_views,
};
use crate::error::{ConnectUtilError, ErrorView};
use crate::search::{first_position, lemma_first_position, lemma_first_position_is};
use crate::terraform::{TerraformGenerator, generation_result};
use crate::text::{
    all_lines_commented, bool_text, bool_to_text, concat, concat3, is_commented_out, join,
    join_with, text_eq, texts,
};
use crate::trusted::{hcl_document, lowercase, parse_document, to_lowercase};
use crate::types::{
    ConnectorConfig, ConnectorConfigView, ConnectorDefinition, ConnectorDefinitionView,
    ConnectorOptions, ConnectorType, TerraformConfigOptions, TerraformConfigOptionsView,
    config_views, definition_views, option_text,
};

verus! {

/// The entry point of the library for a command-line front end.
pub struct ConnectUtilApp;

/// An expression as a plain string, where it has one: a string is its text, a
/// variable `var.<name>`, a number its decimal text, a boolean `true` or
/// `false`. An array is `[a, b]` of the items that have a string. A call of
/// `join` on an array is the items of that array that have a string, with
/// `, ` between them; any other call is `name(...)`. Nothing else has one.
pub open spec fn extracted(e: ExprView) -> Option<Seq<char>>
    decreases e, 0nat,
{
    match e {
        ExprView::Str(text) => Some(text),
        ExprView::Variable(name) => Some("var."@ + name),
        ExprView::FuncCall { name, args, expand_final } => {
            if name == "join"@ && args.len() > 0 && args[0] is Array {
                Some(
                    join_with(
                        extracted_items(args[0]->Array_0, args[0]->Array_0.len()),
                        ", "@,
                    ),
                )
            } else {
                Some(name + "(...)"@)
            }
        },
        ExprView::Array(items) => Some(
            "["@ + join_with(extracted_items(items, items.len()), ", "@) + "]"@,
        ),
        ExprView::Number(text) => Some(text),
        ExprView::Bool(b) => Some(bool_text(b)),
        _ => None,
    }
}

/// The strings of the first `count` items, without the items that have none.
pub open spec fn extracted_items(items: Seq<ExprView>, count: nat) -> Seq<Seq<char>>
    decreases items, count,
{
    if count == 0 || count > items.len() {
        Seq::empty()
    } else {
        let before = extracted_items(items, (count - 1) as nat);
        match extracted(items[count - 1]) {
            Some(text) => before.push(text),
            None => before,
        }
    }
}

/// The settings that the first `count` entries of an object give: each key's
/// text with the string of its value, without the entries whose value has
/// none. A later entry wins over an earlier one with the same text.
pub open spec fn extracted_settings(entries: Seq<(KeyView, ExprView)>, count: nat) -> Seq<
    (Seq<char>, Seq<char>),
>
    decreases count,
{
    if count == 0 || count > entries.len() {
        Seq::empty()
    } else {
        let before = extracted_settings(entries, (count - 1) as nat);
        match extracted(entries[count - 1].1) {
            Some(text) => entries_insert(before, entries[count - 1].0.text(), text),
            None => before,
        }
    }
}

/// The settings of an object, and nothing for any other expression.
pub open spec fn extracted_object(e: ExprView) -> Option<Seq<(Seq<char>, Seq<char>)>> {
    match e {
        ExprView::Object(object) => Some(
            extracted_settings(object.entries, object.entries.len()),
        ),
        _ => None,
    }
}

/// `settings` with what the attributes called `key` among the first `count`
/// structures add to them, one after the other. An attribute that is no
/// object adds nothing.
pub open spec fn settings_in(
    settings: Seq<(Seq<char>, Seq<char>)>,
    structures: Seq<StructureView>,
    count: nat,
    key: Seq<char>,
) -> Seq<(Seq<char>, Seq<char>)>
    decreases count,
{
    if count == 0 || count > structures.len() {
        settings
    } else {
        let before = settings_in(settings, structures, (count - 1) as nat, key);
        match structures[count - 1] {
            StructureView::Attribute(attribute) => {
                if attribute.key == key {
                    match extracted_object(attribute.expr) {
                        Some(more) => entries_extend(before, more),
                        None => before,
                    }
                } else {
                    before
                }
            },
            StructureView::Block(_) => before,
        }
    }
}

/// The connector that a block body declares under `name`. A body whose
/// `config_nonsensitive` does not set `connector.class` declares none.
pub open spec fn block_config(name: Seq<char>, body: BodyView) -> Option<ConnectorConfigView> {
    let config = settings_in(
        Seq::empty(),
        body.structures,
        body.structures.len(),
        "config_nonsensitive"@,
    );
    let sensitive_config = settings_in(
        Seq::empty(),
        body.structures,
        body.structures.len(),
        "config_sensitive"@,
    );
    if entries_map(config).dom().contains("connector.class"@) {
        Some(
            ConnectorConfigView {
                name,
                connector_class: entries_map(config)["connector.class"@],
                config,
                sensitive_config,
            },
        )
    } else {
        None
    }
}

/// Whether a structure is a `resource "confluent_connector" "<name>"` block.
pub open spec fn is_connector_resource(s: StructureView) -> bool {
    &&& s is Block
    &&& s->Block_0.identifier == "resource"@
    &&& s->Block_0.labels.len() >= 2
    &&& s->Block_0.labels[0] == "confluent_connector"@
}

/// The connector that a structure declares: a connector resource under its
/// second label, a `module` block under its first label (or under the empty
/// name where it has none).
pub open spec fn declared_connector(s: StructureView) -> Option<ConnectorConfigView> {
    match s {
        StructureView::Block(block) => {
            if block.identifier == "resource"@ {
                if is_connector_resource(s) {
                    block_config(block.labels[1], block.body)
                } else {
                    None
                }
            } else if block.identifier == "module"@ {
                block_config(
                    if block.labels.len() > 0 {
                        block.labels[0]
                    } else {
                        Seq::empty()
                    },
                    block.body,
                )
            } else {
                None
            }
        },
        StructureView::Attribute(_) => None,
    }
}

/// The connectors that the first `count` structures declare, in their order.
pub open spec fn connector_configs(structures: Seq<StructureView>, count: nat) -> Seq<
    ConnectorConfigView,
>
    decreases count,
{
    if count == 0 || count > structures.len() {
        Seq::empty()
    } else {
        let before = connector_configs(structures, (count - 1) as nat);
        match declared_connector(structures[count - 1]) {
            Some(config) => before.push(config),
            None => before,
        }
    }
}

/// The connectors that a document declares.
pub open spec fn connectors_of(body: BodyView) -> Seq<ConnectorConfigView> {
    connector_configs(body.structures, body.structures.len())
}

/// A block whose `config_nonsensitive` does not set `connector.class`
/// declares no connector: it is passed over, and is no error.
pub proof fn lemma_block_without_class_is_passed_over(
    structures: Seq<StructureView>,
    count: nat,
)
    requires
        1 <= count <= structures.len(),
        structures[count - 1] is Block,
        !entries_map(
            settings_in(
                Seq::empty(),
                structures[count - 1]->Block_0.body.structures,
                structures[count - 1]->Block_0.body.structures.len(),
                "config_nonsensitive"@,
            ),
        ).dom().contains("connector.class"@),
    ensures
        connector_configs(structures, count) == connector_configs(
            structures,
            (count - 1) as nat,
        ),
{
}

/// A document without blocks declares no connector.
pub proof fn lemma_document_without_blocks_declares_nothing(
    structures: Seq<StructureView>,
    count: nat,
)
    requires
        count <= structures.len(),
        forall|i: int| 0 <= i < count ==> (#[trigger] structures[i]) is Attribute,
    ensures
        connector_configs(structures, count) == Seq::<ConnectorConfigView>::empty(),
    decreases count,
{
    if count > 0 {
        lemma_document_without_blocks_declares_nothing(structures, (count - 1) as nat);
    }
}

/// What reading a text gives: its document, or the parser's message where
/// the text is no document.
pub open spec fn read_result(text: Seq<char>) -> Result<BodyView, ErrorView> {
    match hcl_document(text) {
        Ok(body) => Ok(body),
        Err(message) => Err(ErrorView::Config("Failed to parse Terraform file: "@ + message)),
    }
}

/// What parsing a text gives: the connectors that its document declares, or
/// the parser's message where the text is no document.
pub open spec fn parse_result(text: Seq<char>) -> Result<Seq<ConnectorConfigView>, ErrorView> {
    match read_result(text) {
        Ok(body) => Ok(connectors_of(body)),
        Err(err) => Err(err),
    }
}

/// Parsing fails exactly where the text is no document: what is missing
/// inside a block makes for fewer connectors, never for an error.
pub proof fn lemma_parsing_fails_only_with_the_parser(text: Seq<char>)
    ensures
        parse_result(text) is Err <==> hcl_document(text) is Err,
        hcl_document(text) matches Ok(body) ==> parse_result(text) == Ok::<
            Seq<ConnectorConfigView>,
            ErrorView,
        >(connectors_of(body)),
{
}

/// The condition of being an attribute called `key`, as a value.
pub open spec fn is_attribute(key: Seq<char>) -> spec_fn(StructureView) -> bool {
    |s: StructureView| s is Attribute && s->Attribute_0.key == key
}

/// The condition of being a block called `identifier`, as a value.
pub open spec fn is_block(identifier: Seq<char>) -> spec_fn(StructureView) -> bool {
    |s: StructureView| s is Block && s->Block_0.identifier == identifier
}

/// Whether a body has an attribute called `key`.
pub open spec fn has_attribute(body: BodyView, key: Seq<char>) -> bool {
    first_position(body.structures, is_attribute(key)) < body.structures.len()
}

/// The body of the first block called `identifier`, if there is one.
pub open spec fn first_block(body: BodyView, identifier: Seq<char>) -> Option<BodyView> {
    let at = first_position(body.structures, is_block(identifier));
    if at < body.structures.len() {
        Some(body.structures[at]->Block_0.body)
    } else {
        None
    }
}

/// The keys of the attributes among the first `count` structures, in their order.
pub open spec fn attribute_keys(structures: Seq<StructureView>, count: nat) -> Seq<Seq<char>>
    decreases count,
{
    if count == 0 || count > structures.len() {
        Seq::empty()
    } else {
        let before = attribute_keys(structures, (count - 1) as nat);
        match structures[count - 1] {
            StructureView::Attribute(attribute) => before.push(attribute.key),
            StructureView::Block(_) => before,
        }
    }
}

/// The attributes that a block was found with, for a message.
pub open spec fn found_attributes(body: BodyView) -> Seq<char> {
    let keys = attribute_keys(body.structures, body.structures.len());
    if keys.len() == 0 {
        "none"@
    } else {
        join_with(keys, ", "@)
    }
}

/// What is wrong with the shape of a connector resource, if anything. A
/// resource needs, and is checked for in this order: a `status` attribute, an
/// `environment` block with an `id`, a `kafka_cluster` block with an `id`, a
/// `config_sensitive` and a `config_nonsensitive` attribute.
pub open spec fn resource_violation(body: BodyView, name: Seq<char>) -> Option<Seq<char>> {
    let start = "❌ Resource '"@ + name;
    if !has_attribute(body, "status"@) {
        Some(start + "' missing 'status' field"@)
    } else {
        match first_block(body, "environment"@) {
            None => Some(start + "' missing 'environment { id = ... }' block"@),
            Some(environment) => {
                if !has_attribute(environment, "id"@) {
                    Some(
                        start + "' environment block must have 'id' attribute (found: "@
                            + found_attributes(environment) + ")"@,
                    )
                } else {
                    match first_block(body, "kafka_cluster"@) {
                        None => Some(start + "' missing 'kafka_cluster { id = ... }' block"@),
                        Some(cluster) => {
                            if !has_attribute(cluster, "id"@) {
                                Some(start + "' kafka_cluster block must have 'id' attribute"@)
                            } else if !has_attribute(body, "config_sensitive"@) {
                                Some(start + "' missing 'config_sensitive' attribute"@)
                            } else if !has_attribute(body, "config_nonsensitive"@) {
                                Some(start + "' missing 'config_nonsensitive' attribute"@)
                            } else {
                                None
                            }
                        },
                    }
                }
            },
        }
    }
}

/// The condition of being a connector resource, as a value.
pub open spec fn connector_resource() -> spec_fn(StructureView) -> bool {
    |s: StructureView| is_connector_resource(s)
}

/// The condition of being a connector resource of the wrong shape, as a value.
pub open spec fn misshapen_resource() -> spec_fn(StructureView) -> bool {
    |s: StructureView|
        is_connector_resource(s) && resource_violation(
            s->Block_0.body,
            s->Block_0.labels[1],
        ) is Some
}

/// What the check of a document's shape gives: the violation of the first
/// connector resource that has one; an error of its own where the document
/// has no connector resource at all.
pub open spec fn structure_result(body: BodyView) -> Result<(), ErrorView> {
    let at = first_position(body.structures, misshapen_resource());
    if at < body.structures.len() {
        Err(
            ErrorView::Config(
                resource_violation(
                    body.structures[at]->Block_0.body,
                    body.structures[at]->Block_0.labels[1],
                )->Some_0,
            ),
        )
    } else if first_position(body.structures, connector_resource()) >= body.structures.len() {
        Err(ErrorView::Config("❌ No 'confluent_connector' resources found in file"@))
    } else {
        Ok(())
    }
}

/// What the check of a text's shape gives.
pub open spec fn structure_check(text: Seq<char>) -> Result<(), ErrorView> {
    match read_result(text) {
        Ok(body) => structure_result(body),
        Err(err) => Err(err),
    }
}

/// What generation for a connector of the catalog gives when no topics and
/// no formats are named.
pub open spec fn plain_result(
    connector_name: Seq<char>,
    connector: ConnectorDefinitionView,
) -> Result<Seq<char>, ErrorView> {
    generation_result(
        TerraformConfigOptionsView {
            connector_name,
            connector,
            topics: Seq::empty(),
            input_data_format: None,
            output_data_format: None,
        },
    )
}

/// What generation without questions gives: it needs a name, and takes the
/// first source connector of the catalog.
pub open spec fn unattended_result(name: Option<Seq<char>>) -> Result<Seq<char>, ErrorView> {
    match name {
        None => Err(
            ErrorView::Config("Connector name is required for non-interactive mode"@),
        ),
        Some(connector_name) => {
            let sources = of_type(catalog(), ConnectorType::Source);
            if sources.len() == 0 {
                Err(ErrorView::Config("No connectors available"@))
            } else {
                plain_result(connector_name, sources[0])
            }
        },
    }
}

/// The connector type that an answer to "source or sink?" stands for.
pub open spec fn chosen_type(choice: int) -> Result<ConnectorType, ErrorView> {
    if choice == 0 {
        Ok(ConnectorType::Source)
    } else if choice == 1 {
        Ok(ConnectorType::Sink)
    } else {
        Err(ErrorView::Config("Invalid connector type selection"@))
    }
}

/// The connector type that a filter names, whatever its case.
pub open spec fn filter_type(filter: Seq<char>) -> Option<ConnectorType> {
    if lowercase(filter) == "source"@ {
        Some(ConnectorType::Source)
    } else if lowercase(filter) == "sink"@ {
        Some(ConnectorType::Sink)
    } else {
        None
    }
}

/// The connectors that a listing shows: all of them without a filter, those
/// of one type with a filter, and nothing for a filter that names no type.
pub open spec fn listed_plugins(filter: Option<Seq<char>>) -> Option<Seq<ConnectorDefinitionView>> {
    match filter {
        None => Some(catalog()),
        Some(text) => match filter_type(text) {
            Some(connector_type) => Some(of_type(catalog(), connector_type)),
            None => None,
        },
    }
}

/// The word for a connector type in a listing.
pub open spec fn type_word(connector_type: ConnectorType) -> Seq<char> {
    match connector_type {
        ConnectorType::Source => "source"@,
        ConnectorType::Sink => "sink"@,
    }
}

/// The lines of a listing for the first `count` connectors: three for each.
pub open spec fn plugin_lines(connectors: Seq<ConnectorDefinitionView>, count: nat) -> Seq<
    Seq<char>,
>
    decreases count,
{
    if count == 0 || count > connectors.len() {
        seq!["Available connector plugins:"@]
    } else {
        let connector = connectors[count - 1];
        plugin_lines(connectors, (count - 1) as nat).push(
            "  - "@ + connector.display_name + " ("@ + type_word(connector.connector_type)
                + ")"@,
        ).push("    Class: "@ + connector.connector_class).push(
            "    Description: "@ + connector.description,
        )
    }
}

/// The lines that a listing prints: a heading and the connectors, or one
/// line that turns the filter down.
pub open spec fn listing(filter: Option<Seq<char>>) -> Seq<Seq<char>> {
    match listed_plugins(filter) {
        Some(connectors) => plugin_lines(connectors, connectors.len()),
        None => seq!["❌ Invalid filter type. Use 'source' or 'sink'"@],
    }
}

/// What the check of one connector against the catalog gave.
#[derive(Debug)]
pub struct ConnectorReport {
    /// The name under which the document declares the connector.
    pub name: String,
    /// The name under which the catalog shows the connector.
    pub connector: String,
    /// Whether the configuration is valid, or why it is not.
    pub outcome: Result<(), String>,
    /// The number of settings that are no secrets.
    pub config_count: usize,
    /// The number of sensitive settings.
    pub sensitive_count: usize,
}

/// What a report holds.
pub struct ReportView {
    pub name: Seq<char>,
    pub connector: Seq<char>,
    pub outcome: Result<(), Seq<char>>,
    pub config_count: nat,
    pub sensitive_count: nat,
}

impl View for ConnectorReport {
    type V = ReportView;

    open spec fn view(&self) -> ReportView {
        ReportView {
            name: self.name@,
            connector: self.connector@,
            outcome: match self.outcome {
                Ok(_) => Ok(()),
                Err(message) => Err(message@),
            },
            config_count: self.config_count as nat,
            sensitive_count: self.sensitive_count as nat,
        }
    }
}

/// The views of a list of reports.
pub open spec fn report_views(items: Seq<ConnectorReport>) -> Seq<ReportView> {
    Seq::new(items.len(), |i: int| items[i]@)
}

/// What the validation of a file's content gave.
#[derive(Debug)]
pub enum ValidationSummary {
    /// Every line of the file is blank or a comment: there is nothing to check.
    CommentedOut,
    /// The connectors of the file, each with what its check gave, and the
    /// number of connector resources, all of which have the right shape.
    Checked { reports: Vec<ConnectorReport>, resources: usize },
}

/// What a summary holds.
pub enum SummaryView {
    CommentedOut,
    Checked { reports: Seq<ReportView>, resources: nat },
}

impl View for ValidationSummary {
    type V = SummaryView;

    open spec fn view(&self) -> SummaryView {
        match self {
            ValidationSummary::CommentedOut => SummaryView::CommentedOut,
            ValidationSummary::Checked { reports, resources } => SummaryView::Checked {
                reports: report_views(reports@),
                resources: *resources as nat,
            },
        }
    }
}

/// A validation that ended in an error, with what was found before it.
#[derive(Debug)]
pub struct ValidationFailure {
    /// The number of connectors that the file declares; 0 where the file
    /// could not be read or declares none.
    pub found: usize,
    /// The reports on the connectors that were checked before the error.
    pub reports: Vec<ConnectorReport>,
    /// What went wrong.
    pub error: ConnectUtilError,
}

/// What a failure holds.
pub struct FailureView {
    pub found: nat,
    pub reports: Seq<ReportView>,
    pub error: ErrorView,
}

impl View for ValidationFailure {
    type V = FailureView;

    open spec fn view(&self) -> FailureView {
        FailureView {
            found: self.found as nat,
            reports: report_views(self.reports@),
            error: self.error@,
        }
    }
}

/// The report on a connector whose class the catalog has under `definition`.
pub open spec fn report_on(
    config: ConnectorConfigView,
    definition: ConnectorDefinitionView,
) -> ReportView {
    ReportView {
        name: config.name,
        connector: definition.display_name,
        outcome: validation_result(definition, config.config, config.sensitive_config),
        config_count: config.config.len(),
        sensitive_count: config.sensitive_config.len(),
    }
}

/// The condition of having a class that the catalog does not have, as a value.
pub open spec fn is_unknown() -> spec_fn(ConnectorConfigView) -> bool {
    |config: ConnectorConfigView| named(config.connector_class) is None
}

/// The reports on the first `count` connectors, each of which the catalog has.
pub open spec fn reports_on(configs: Seq<ConnectorConfigView>, count: nat) -> Seq<ReportView> {
    Seq::new(
        count,
        |i: int| report_on(configs[i], named(configs[i].connector_class)->Some_0),
    )
}

/// The number of connector resources of a document.
pub open spec fn connector_resource_count(body: BodyView) -> nat {
    body.structures.filter(connector_resource()).len()
}

/// What the validation of a file's content gives. A file of comments is not
/// checked. A file that is no document, a file without connectors, a
/// connector whose class the catalog does not have (the first is reported),
/// and a document of the wrong shape are errors; the failure holds the
/// reports on the connectors that were checked before the error. That a
/// configuration is not valid is no error: it is what the report on that
/// connector says.
pub open spec fn validation_summary(text: Seq<char>) -> Result<SummaryView, FailureView> {
    if all_lines_commented(text) {
        Ok(SummaryView::CommentedOut)
    } else {
        match read_result(text) {
            Err(error) => Err(FailureView { found: 0, reports: Seq::empty(), error }),
            Ok(body) => {
                let configs = connectors_of(body);
                let unknown = first_position(configs, is_unknown());
                if configs.len() == 0 {
                    Err(
                        FailureView {
                            found: 0,
                            reports: Seq::empty(),
                            error: ErrorView::Config(
                                "No connector configurations found in the file."@,
                            ),
                        },
                    )
                } else if unknown < configs.len() {
                    Err(
                        FailureView {
                            found: configs.len(),
                            reports: reports_on(configs, unknown as nat),
                            error: ErrorView::Config(
                                "Unknown connector: "@ + configs[unknown].connector_class,
                            ),
                        },
                    )
                } else {
                    match structure_result(body) {
                        Err(error) => Err(
                            FailureView {
                                found: configs.len(),
                                reports: reports_on(configs, configs.len()),
                                error,
                            },
                        ),
                        Ok(_) => Ok(
                            SummaryView::Checked {
                                reports: reports_on(configs, configs.len()),
                                resources: connector_resource_count(body),
                            },
                        ),
                    }
                }
            },
        }
    }
}

impl ConnectUtilApp {
    /// The application. Nothing can go wrong in making it.
    pub fn new() -> (r: Result<ConnectUtilApp, ConnectUtilError>)
        ensures
            r is Ok,
    {
        Ok(ConnectUtilApp)
    }

    /// Generates the declaration of the first source connector under the
    /// name that the options give.
    pub fn generate_terraform_non_interactive(&self, options: ConnectorOptions) -> (r: Result<
        String,
        ConnectUtilError,
    >)
        ensures
            match r {
                Ok(text) => unattended_result(option_text(options.name)) == Ok::<
                    Seq<char>,
                    ErrorView,
                >(text@),
                Err(err) => unattended_result(option_text(options.name)) == Err::<
                    Seq<char>,
                    ErrorView,
                >(err@),
            },
    {
        let connector_name = match options.name {
            Some(name) => name,
            None => {
                return Err(
                    ConnectUtilError::Config(
                        "Connector name is required for non-interactive mode".to_string(),
                    ),
                );
            },
        };
        let available_connectors = ConnectorDefinition::get_connectors_by_type(
            &ConnectorType::Source,
        );
        if available_connectors.len() == 0 {
            return Err(ConnectUtilError::Config("No connectors available".to_string()));
        }
        assert(available_connectors@[0]@ == of_type(catalog(), ConnectorType::Source)[0]);
        self.generate_for_connector(connector_name, &available_connectors[0])
    }

    /// Generates the declaration of a connector under a name, without
    /// topics and with the formats left open.
    pub fn generate_for_connector(
        &self,
        connector_name: String,
        connector: &ConnectorDefinition,
    ) -> (r: Result<String, ConnectUtilError>)
        ensures
            match r {
                Ok(text) => plain_result(connector_name@, connector@) == Ok::<
                    Seq<char>,
                    ErrorView,
                >(text@),
                Err(err) => plain_result(connector_name@, connector@) == Err::<
                    Seq<char>,
                    ErrorView,
                >(err@),
            },
    {
        let topics: Vec<String> = Vec::new();
        assert(texts(topics@) =~= Seq::empty());
        let terraform_options = TerraformConfigOptions {
            connector_name,
            connector: connector.clone(),
            topics,
            input_data_format: None,
            output_data_format: None,
        };
        let generator = TerraformGenerator;
        generator.generate_connector_config(terraform_options)
    }

    /// The connector type that the answer to "source or sink?" stands for.
    pub fn connector_type_for_choice(choice: usize) -> (r: Result<ConnectorType, ConnectUtilError>)
        ensures
            match r {
                Ok(connector_type) => chosen_type(choice as int) == Ok::<
                    ConnectorType,
                    ErrorView,
                >(connector_type),
                Err(err) => chosen_type(choice as int) == Err::<ConnectorType, ErrorView>(err@),
            },
    {
        if choice == 0 {
            Ok(ConnectorType::Source)
        } else if choice == 1 {
            Ok(ConnectorType::Sink)
        } else {
            Err(ConnectUtilError::Config("Invalid connector type selection".to_string()))
        }
    }

    /// The connectors that a listing shows, or nothing where the filter
    /// names no connector type.
    pub fn plugins(&self, filter_type: Option<String>) -> (r: Option<Vec<ConnectorDefinition>>)
        ensures
            match r {
                Some(connectors) => listed_plugins(option_text(filter_type)) == Some(
                    definition_views(connectors@),
                ),
                None => listed_plugins(option_text(filter_type)) is None,
            },
    {
        match filter_type {
            None => Some(ConnectorDefinition::get_all_connectors()),
            Some(filter) => {
                let lowered = to_lowercase(filter.as_str());
                if text_eq(lowered.as_str(), "source") {
                    Some(ConnectorDefinition::get_connectors_by_type(&ConnectorType::Source))
                } else if text_eq(lowered.as_str(), "sink") {
                    Some(ConnectorDefinition::get_connectors_by_type(&ConnectorType::Sink))
                } else {
                    None
                }
            },
        }
    }

    /// The lines that list the connectors of the catalog, all or those of
    /// one type. A filter that names no type is no error: the listing then
    /// says so.
    pub fn list_plugins(&self, filter_type: Option<String>) -> (r: Result<
        Vec<String>,
        ConnectUtilError,
    >)
        ensures
            r matches Ok(lines) && texts(lines@) == listing(option_text(filter_type)),
    {
        let connectors = match self.plugins(filter_type) {
            Some(connectors) => connectors,
            None => {
                let lines = vec!["❌ Invalid filter type. Use 'source' or 'sink'".to_string()];
                assert(texts(lines@) =~= listing(option_text(filter_type)));
                return Ok(lines);
            },
        };
        let ghost views = definition_views(connectors@);
        let mut lines = vec!["Available connector plugins:".to_string()];
        assert(texts(lines@) =~= plugin_lines(views, 0));
        let mut i: usize = 0;
        while i < connectors.len()
            invariant
                0 <= i <= connectors.len(),
                views == definition_views(connectors@),
                texts(lines@) == plugin_lines(views, i as nat),
            decreases connectors.len() - i,
        {
            let connector = &connectors[i];
            assert(views[i as int] == connector@);
            let word = match connector.connector_type {
                ConnectorType::Source => "source",
                ConnectorType::Sink => "sink",
            };
            let head = concat3("  - ", connector.display_name.as_str(), " (");
            let ghost before = texts(lines@);
            lines.push(concat3(head.as_str(), word, ")"));
            lines.push(concat("    Class: ", connector.connector_class.as_str()));
            lines.push(concat("    Description: ", connector.description.as_str()));
            assert(texts(lines@) =~= before.push(
                "  - "@ + connector@.display_name + " ("@ + type_word(connector@.connector_type)
                    + ")"@,
            ).push("    Class: "@ + connector@.connector_class).push(
                "    Description: "@ + connector@.description,
            ));
            i = i + 1;
        }
        Ok(lines)
    }

    /// The number of connector resources of a document.
    pub fn count_connector_resources(&self, body: &TfBody) -> (r: usize)
        ensures
            r == connector_resource_count(body@),
    {
        let mut count: usize = 0;
        let mut i: usize = 0;
        let ghost all = body@.structures;
        proof {
            lemma_structure_views(body.structures@);
            assert(all.subrange(0, 0) =~= Seq::empty());
            reveal(Seq::filter);
        }
        while i < body.structures.len()
            invariant
                0 <= i <= body.structures.len(),
                all == body@.structures,
                all.len() == body.structures@.len(),
                forall|j: int| 0 <= j < all.len() ==> (#[trigger] all[j]) == body.structures@[j]@,
                count <= i,
                count == all.subrange(0, i as int).filter(connector_resource()).len(),
            decreases body.structures.len() - i,
        {
            proof {
                let done = all.subrange(0, i + 1);
                assert(done.drop_last() =~= all.subrange(0, i as int));
                assert(done.last() == body.structures@[i as int]@);
                reveal(Seq::filter);
            }
            match &body.structures[i] {
                TfStructure::Block(block) => {
                    proof {
                        assert(all[i as int] == StructureView::Block(block@));
                    }
                    if text_eq(block.identifier.as_str(), "resource") && block.labels.len() >= 2
                        && text_eq(block.labels[0].as_str(), "confluent_connector") {
                        assert(block@.labels[0] == block.labels@[0]@);
                        count = count + 1;
                    } else {
                        assert(block.labels@.len() >= 2 ==> block@.labels[0] == block.labels@[0]@);
                    }
                },
                TfStructure::Attribute(_) => {},
            }
            i = i + 1;
        }
        assert(all.subrange(0, all.len() as int) =~= all);
        count
    }

    /// Validates the content of a Terraform file: each connector against
    /// its definition in the catalog, then the shape of the document.
    pub fn validate_connector_content(&self, terraform_content: &str) -> (r: Result<
        ValidationSummary,
        ValidationFailure,
    >)
        ensures
            match r {
                Ok(summary) => validation_summary(terraform_content@) == Ok::<
                    SummaryView,
                    FailureView,
                >(summary@),
                Err(failure) => validation_summary(terraform_content@) == Err::<
                    SummaryView,
                    FailureView,
                >(failure@),
            },
    {
        if is_commented_out(terraform_content) {
            return Ok(ValidationSummary::CommentedOut);
        }
        let body = match self.read_document(terraform_content) {
            Ok(body) => body,
            Err(error) => {
                let reports: Vec<ConnectorReport> = Vec::new();
                assert(report_views(reports@) =~= Seq::empty());
                return Err(ValidationFailure { found: 0, reports, error });
            },
        };
        let connector_configs = self.connector_configs_in(&body);
        let ghost configs = config_views(connector_configs@);
        let mut reports: Vec<ConnectorReport> = Vec::new();
        if connector_configs.len() == 0 {
            assert(report_views(reports@) =~= Seq::empty());
            return Err(
                ValidationFailure {
                    found: 0,
                    reports,
                    error: ConnectUtilError::Config(
                        "No connector configurations found in the file.".to_string(),
                    ),
                },
            );
        }
        let mut i: usize = 0;
        while i < connector_configs.len()
            invariant
                0 <= i <= connector_configs.len(),
                configs == config_views(connector_configs@),
                configs == connectors_of(body@),
                configs.len() > 0,
                !all_lines_commented(terraform_content@),
                read_result(terraform_content@) == Ok::<BodyView, ErrorView>(body@),
                forall|j: int|
                    0 <= j < connector_configs@.len() ==> (#[trigger] connector_configs@[j]).wf(),
                forall|j: int| 0 <= j < i ==> !is_unknown()(#[trigger] configs[j]),
                reports@.len() == i,
                forall|j: int|
                    0 <= j < i ==> (#[trigger] reports@[j])@ == report_on(
                        configs[j],
                        named(configs[j].connector_class)->Some_0,
                    ),
            decreases connector_configs.len() - i,
        {
            let config = &connector_configs[i];
            assert(configs[i as int] == config@);
            assert(config.wf());
            let connector_def = match ConnectorDefinition::get_connector_by_name(
                config.connector_class.as_str(),
            ) {
                Some(definition) => definition,
                None => {
                    proof {
                        lemma_first_position_is(configs, is_unknown(), i as int);
                        assert(report_views(reports@) =~= reports_on(configs, i as nat));
                    }
                    return Err(
                        ValidationFailure {
                            found: connector_configs.len(),
                            reports,
                            error: ConnectUtilError::Config(
                                concat("Unknown connector: ", config.connector_class.as_str()),
                            ),
                        },
                    );
                },
            };
            let outcome = connector_def.validate_config(&config.config, &config.sensitive_config);
            reports.push(
                ConnectorReport {
                    name: config.name.clone(),
                    connector: connector_def.display_name.clone(),
                    outcome,
                    config_count: config.config.entry_count(),
                    sensitive_count: config.sensitive_config.entry_count(),
                },
            );
            i = i + 1;
        }
        proof {
            lemma_first_position_is(configs, is_unknown(), configs.len() as int);
            assert(report_views(reports@) =~= reports_on(configs, configs.len()));
        }
        match self.validate_document_structure(&body) {
            Ok(_) => Ok(
                ValidationSummary::Checked {
                    reports,
                    resources: self.count_connector_resources(&body),
                },
            ),
            Err(error) => Err(
                ValidationFailure { found: connector_configs.len(), reports, error },
            ),
        }
    }

    /// Reads the connectors that a Terraform text declares.
    pub fn parse_terraform_configs(&self, terraform_content: &str) -> (r: Result<
        Vec<ConnectorConfig>,
        ConnectUtilError,
    >)
        ensures
            match r {
                Ok(configs) => parse_result(terraform_content@) == Ok::<
                    Seq<ConnectorConfigView>,
                    ErrorView,
                >(config_views(configs@)) && forall|i: int|
                    0 <= i < configs@.len() ==> (#[trigger] configs@[i]).wf(),
                Err(err) => parse_result(terraform_content@) == Err::<
                    Seq<ConnectorConfigView>,
                    ErrorView,
                >(err@),
            },
    {
        match self.read_document(terraform_content) {
            Ok(body) => Ok(self.connector_configs_in(&body)),
            Err(err) => Err(err),
        }
    }

    /// Reads a Terraform text into a document.
    pub fn read_document(&self, terraform_content: &str) -> (r: Result<TfBody, ConnectUtilError>)
        ensures
            match r {
                Ok(body) => read_result(terraform_content@) == Ok::<BodyView, ErrorView>(body@),
                Err(err) => read_result(terraform_content@) == Err::<BodyView, ErrorView>(err@),
            },
    {
        match parse_document(terraform_content) {
            Ok(body) => Ok(body),
            Err(message) => Err(
                ConnectUtilError::Config(
                    concat("Failed to parse Terraform file: ", message.as_str()),
                ),
            ),
        }
    }

    /// The connectors that a document declares, in the order of their blocks.
    pub fn connector_configs_in(&self, body: &TfBody) -> (r: Vec<ConnectorConfig>)
        ensures
            config_views(r@) == connectors_of(body@),
            forall|i: int| 0 <= i < r@.len() ==> (#[trigger] r@[i]).wf(),
    {
        let mut found: Vec<ConnectorConfig> = Vec::new();
        let mut i: usize = 0;
        proof {
            lemma_structure_views(body.structures@);
            assert(config_views(found@) =~= Seq::empty());
        }
        while i < body.structures.len()
            invariant
                0 <= i <= body.structures.len(),
                body@.structures.len() == body.structures@.len(),
                forall|j: int|
                    0 <= j < body.structures@.len() ==> (#[trigger] body@.structures[j])
                        == body.structures@[j]@,
                config_views(found@) == connector_configs(
                    body@.structures,
                    i as nat,
                ),
                forall|j: int|
                    0 <= j < found@.len() ==> (#[trigger] found@[j]).wf(),
            decreases body.structures.len() - i,
        {
            let ghost before = config_views(found@);
            assert(body@.structures[i as int] == body.structures@[i as int]@);
            match &body.structures[i] {
                TfStructure::Block(block) => {
                    proof {
                        reveal_strlit("");
                        assert(body@.structures[i as int] == StructureView::Block(block@));
                    }
                    let declared = if text_eq(block.identifier.as_str(), "resource") {
                        if block.labels.len() >= 2 && text_eq(
                            block.labels[0].as_str(),
                            "confluent_connector",
                        ) {
                            assert(block@.labels[0] == block.labels@[0]@);
                            assert(block@.labels[1] == block.labels@[1]@);
                            self.connector_from_block(block.labels[1].as_str(), &block.body)
                        } else {
                            assert(block.labels@.len() >= 2 ==> block@.labels[0]
                                == block.labels@[0]@);
                            None
                        }
                    } else if text_eq(block.identifier.as_str(), "module") {
                        if block.labels.len() > 0 {
                            assert(block@.labels[0] == block.labels@[0]@);
                            self.connector_from_block(block.labels[0].as_str(), &block.body)
                        } else {
                            self.connector_from_block("", &block.body)
                        }
                    } else {
                        None
                    };
                    assert(option_config_view(declared) == declared_connector(
                        body@.structures[i as int],
                    ));
                    match declared {
                        Some(config) => {
                            found.push(config);
                            assert(config_views(found@) =~= before.push(config@));
                        },
                        None => {},
                    }
                },
                TfStructure::Attribute(_) => {},
            }
            i = i + 1;
        }
        found
    }

    /// The connector that a block body declares under `name`, if it
    /// declares one.
    pub fn connector_from_block(&self, name: &str, body: &TfBody) -> (r: Option<ConnectorConfig>)
        ensures
            option_config_view(r) == block_config(name@, body@),
            r matches Some(config) ==> config.wf(),
    {
        let mut config_nonsensitive = ConfigMap::new();
        let mut config_sensitive = ConfigMap::new();
        self.extract_config_from_block(body, &mut config_nonsensitive, &mut config_sensitive);
        proof {
            config_nonsensitive.lemma_view();
            config_sensitive.lemma_view();
            reveal_strlit("");
        }
        let connector_class = match config_nonsensitive.get("connector.class") {
            Some(class) => class.clone(),
            None => {
                return None;
            },
        };
        Some(
            ConnectorConfig {
                name: String::from_str(name),
                connector_class,
                config: config_nonsensitive,
                sensitive_config: config_sensitive,
            },
        )
    }

    /// Adds to the two maps what the `config_nonsensitive` and the
    /// `config_sensitive` attributes of a body set.
    pub fn extract_config_from_block(
        &self,
        body: &TfBody,
        config_nonsensitive: &mut ConfigMap,
        config_sensitive: &mut ConfigMap,
    )
        requires
            old(config_nonsensitive).wf(),
            old(config_sensitive).wf(),
        ensures
            final(config_nonsensitive).wf(),
            final(config_sensitive).wf(),
            final(config_nonsensitive).entries() == settings_in(
                old(config_nonsensitive).entries(),
                body@.structures,
                body@.structures.len(),
                "config_nonsensitive"@,
            ),
            final(config_sensitive).entries() == settings_in(
                old(config_sensitive).entries(),
                body@.structures,
                body@.structures.len(),
                "config_sensitive"@,
            ),
    {
        let mut i: usize = 0;
        proof {
            lemma_structure_views(body.structures@);
        }
        while i < body.structures.len()
            invariant
                0 <= i <= body.structures.len(),
                body@.structures.len() == body.structures@.len(),
                forall|j: int|
                    0 <= j < body.structures@.len() ==> (#[trigger] body@.structures[j])
                        == body.structures@[j]@,
                config_nonsensitive.wf(),
                config_sensitive.wf(),
                config_nonsensitive.entries() == settings_in(
                    old(config_nonsensitive).entries(),
                    body@.structures,
                    i as nat,
                    "config_nonsensitive"@,
                ),
                config_sensitive.entries() == settings_in(
                    old(config_sensitive).entries(),
                    body@.structures,
                    i as nat,
                    "config_sensitive"@,
                ),
            decreases body.structures.len() - i,
        {
            assert(body@.structures[i as int] == body.structures@[i as int]@);
            proof {
                reveal_strlit("config_nonsensitive");
                reveal_strlit("config_sensitive");
                assert("config_nonsensitive"@.len() == 19);
                assert("config_sensitive"@.len() == 16);
            }
            match &body.structures[i] {
                TfStructure::Attribute(attribute) => {
                    if text_eq(attribute.key.as_str(), "config_nonsensitive") {
                        match self.extract_map_from_expression(&attribute.expr) {
                            Some(map) => {
                                config_nonsensitive.extend(&map);
                            },
                            None => {},
                        }
                    } else if text_eq(attribute.key.as_str(), "config_sensitive") {
                        match self.extract_map_from_expression(&attribute.expr) {
                            Some(map) => {
                                config_sensitive.extend(&map);
                            },
                            None => {},
                        }
                    }
                },
                TfStructure::Block(_) => {},
            }
            i = i + 1;
        }
    }

    /// The settings of an object: each key with the string of its value.
    pub fn extract_map_from_expression(&self, expr: &TfExpression) -> (r: Option<ConfigMap>)
        ensures
            match r {
                Some(map) => map.wf() && extracted_object(expr@) == Some(map.entries()),
                None => extracted_object(expr@) is None,
            },
    {
        match expr {
            TfExpression::Object(object) => {
                let mut result = ConfigMap::new();
                let mut i: usize = 0;
                let ghost entries = object@.entries;
                while i < object.entries.len()
                    invariant
                        0 <= i <= object.entries.len(),
                        entries == object@.entries,
                        entries.len() == object.entries@.len(),
                        result.wf(),
                        result.entries() == extracted_settings(entries, i as nat),
                    decreases object.entries.len() - i,
                {
                    assert(entries[i as int] == (
                        object.entries@[i as int].0@,
                        object.entries@[i as int].1@,
                    ));
                    match self.extract_string_from_expression(&object.entries[i].1) {
                        Some(str_value) => {
                            let _ = result.insert(object.entries[i].0.text().clone(), str_value);
                        },
                        None => {},
                    }
                    i = i + 1;
                }
                Some(result)
            },
            _ => None,
        }
    }

    /// The strings of the items that have one, in their order.
    pub fn extract_strings(&self, items: &Vec<TfExpression>) -> (r: Vec<String>)
        ensures
            texts(r@) == extracted_items(expression_views(items@), items@.len()),
        decreases items,
    {
        let mut values: Vec<String> = Vec::new();
        let mut i: usize = 0;
        let ghost views = expression_views(items@);
        proof {
            lemma_expression_views(items@);
            assert(texts(values@) =~= Seq::empty());
        }
        while i < items.len()
            invariant
                0 <= i <= items.len(),
                views == expression_views(items@),
                views.len() == items@.len(),
                forall|j: int| 0 <= j < items@.len() ==> (#[trigger] views[j]) == items@[j]@,
                texts(values@) == extracted_items(views, i as nat),
            decreases items.len() - i,
        {
            let ghost before = texts(values@);
            assert(views[i as int] == items@[i as int]@);
            match self.extract_string_from_expression(&items[i]) {
                Some(value) => {
                    values.push(value);
                    assert(texts(values@) =~= before.push(value@));
                },
                None => {},
            }
            i = i + 1;
        }
        values
    }

    /// An expression as a plain string, where it has one.
    pub fn extract_string_from_expression(&self, expr: &TfExpression) -> (r: Option<String>)
        ensures
            option_text(r) == extracted(expr@),
        decreases expr,
    {
        match expr {
            TfExpression::String(s) => Some(s.clone()),
            TfExpression::Variable(name) => Some(concat("var.", name.as_str())),
            TfExpression::FuncCall { name, args, expand_final } => {
                proof {
                    lemma_expression_views(args@);
                }
                if text_eq(name.as_str(), "join") && args.len() > 0 {
                    match &args[0] {
                        TfExpression::Array(items) => {
                            let values = self.extract_strings(items);
                            return Some(join(&values, ", "));
                        },
                        _ => {},
                    }
                }
                Some(concat(name.as_str(), "(...)"))
            },
            TfExpression::Array(items) => {
                let values = self.extract_strings(items);
                let inner = join(&values, ", ");
                Some(concat3("[", inner.as_str(), "]"))
            },
            TfExpression::Number(text) => Some(text.clone()),
            TfExpression::Bool(b) => Some(bool_to_text(*b)),
            _ => None,
        }
    }

    /// Whether the body has an attribute called `key`.
    pub fn body_has_attribute(body: &TfBody, key: &str) -> (r: bool)
        ensures
            r == has_attribute(body@, key@),
    {
        let mut i: usize = 0;
        proof {
            lemma_structure_views(body.structures@);
        }
        while i < body.structures.len()
            invariant
                0 <= i <= body.structures.len(),
                body@.structures.len() == body.structures@.len(),
                forall|j: int|
                    0 <= j < body.structures@.len() ==> (#[trigger] body@.structures[j])
                        == body.structures@[j]@,
                forall|j: int| 0 <= j < i ==> !is_attribute(key@)(#[trigger] body@.structures[j]),
            decreases body.structures.len() - i,
        {
            assert(body@.structures[i as int] == body.structures@[i as int]@);
            match &body.structures[i] {
                TfStructure::Attribute(attribute) => {
                    if text_eq(attribute.key.as_str(), key) {
                        proof {
                            lemma_first_position_is(
                                body@.structures,
                                is_attribute(key@),
                                i as int,
                            );
                        }
                        return true;
                    }
                },
                TfStructure::Block(_) => {},
            }
            i = i + 1;
        }
        proof {
            lemma_first_position_is(
                body@.structures,
                is_attribute(key@),
                body@.structures.len() as int,
            );
        }
        false
    }

    /// The body of the first block called `identifier`.
    pub fn body_first_block<'a>(body: &'a TfBody, identifier: &str) -> (r: Option<&'a TfBody>)
        ensures
            match r {
                Some(inner) => first_block(body@, identifier@) == Some(inner@),
                None => first_block(body@, identifier@) is None,
            },
    {
        let mut i: usize = 0;
        proof {
            lemma_structure_views(body.structures@);
        }
        while i < body.structures.len()
            invariant
                0 <= i <= body.structures.len(),
                body@.structures.len() == body.structures@.len(),
                forall|j: int|
                    0 <= j < body.structures@.len() ==> (#[trigger] body@.structures[j])
                        == body.structures@[j]@,
                forall|j: int| 0 <= j < i ==> !is_block(identifier@)(#[trigger] body@.structures[j]),
            decreases body.structures.len() - i,
        {
            assert(body@.structures[i as int] == body.structures@[i as int]@);
            match &body.structures[i] {
                TfStructure::Block(block) => {
                    if text_eq(block.identifier.as_str(), identifier) {
                        proof {
                            assert(body@.structures[i as int] == StructureView::Block(block@));
                            lemma_first_position_is(
                                body@.structures,
                                is_block(identifier@),
                                i as int,
                            );
                        }
                        return Some(&block.body);
                    }
                },
                TfStructure::Attribute(_) => {},
            }
            i = i + 1;
        }
        proof {
            lemma_first_position_is(
                body@.structures,
                is_block(identifier@),
                body@.structures.len() as int,
            );
        }
        None
    }

    /// The attributes that a body has, for a message: their keys with `, `
    /// between them, or `none`.
    pub fn body_attribute_list(body: &TfBody) -> (r: String)
        ensures
            r@ == found_attributes(body@),
    {
        let mut keys: Vec<String> = Vec::new();
        let mut i: usize = 0;
        proof {
            lemma_structure_views(body.structures@);
            assert(texts(keys@) =~= Seq::empty());
        }
        while i < body.structures.len()
            invariant
                0 <= i <= body.structures.len(),
                body@.structures.len() == body.structures@.len(),
                forall|j: int|
                    0 <= j < body.structures@.len() ==> (#[trigger] body@.structures[j])
                        == body.structures@[j]@,
                texts(keys@) == attribute_keys(body@.structures, i as nat),
            decreases body.structures.len() - i,
        {
            let ghost before = texts(keys@);
            assert(body@.structures[i as int] == body.structures@[i as int]@);
            match &body.structures[i] {
                TfStructure::Attribute(attribute) => {
                    keys.push(attribute.key.clone());
                    assert(texts(keys@) =~= before.push(attribute.key@));
                },
                TfStructure::Block(_) => {},
            }
            i = i + 1;
        }
        if keys.len() == 0 {
            "none".to_string()
        } else {
            join(&keys, ", ")
        }
    }

    /// Checks the shape of one connector resource.
    pub fn validate_resource_block(&self, body: &TfBody, resource_name: &str) -> (r: Result<
        (),
        ConnectUtilError,
    >)
        ensures
            match r {
                Ok(_) => resource_violation(body@, resource_name@) is None,
                Err(err) => resource_violation(body@, resource_name@) is Some && err@
                    == ErrorView::Config(resource_violation(body@, resource_name@)->Some_0),
            },
    {
        let start = concat("❌ Resource '", resource_name);
        if !Self::body_has_attribute(body, "status") {
            return Err(
                ConnectUtilError::Config(concat(start.as_str(), "' missing 'status' field")),
            );
        }
        let environment = match Self::body_first_block(body, "environment") {
            Some(environment) => environment,
            None => {
                return Err(
                    ConnectUtilError::Config(
                        concat(start.as_str(), "' missing 'environment { id = ... }' block"),
                    ),
                );
            },
        };
        if !Self::body_has_attribute(environment, "id") {
            let found = Self::body_attribute_list(environment);
            let head = concat(
                start.as_str(),
                "' environment block must have 'id' attribute (found: ",
            );
            return Err(ConnectUtilError::Config(concat3(head.as_str(), found.as_str(), ")")));
        }
        let cluster = match Self::body_first_block(body, "kafka_cluster") {
            Some(cluster) => cluster,
            None => {
                return Err(
                    ConnectUtilError::Config(
                        concat(start.as_str(), "' missing 'kafka_cluster { id = ... }' block"),
                    ),
                );
            },
        };
        if !Self::body_has_attribute(cluster, "id") {
            return Err(
                ConnectUtilError::Config(
                    concat(start.as_str(), "' kafka_cluster block must have 'id' attribute"),
                ),
            );
        }
        if !Self::body_has_attribute(body, "config_sensitive") {
            return Err(
                ConnectUtilError::Config(
                    concat(start.as_str(), "' missing 'config_sensitive' attribute"),
                ),
            );
        }
        if !Self::body_has_attribute(body, "config_nonsensitive") {
            return Err(
                ConnectUtilError::Config(
                    concat(start.as_str(), "' missing 'config_nonsensitive' attribute"),
                ),
            );
        }
        Ok(())
    }

    /// Checks the shape of every connector resource of a document, up to
    /// the first that is wrong.
    pub fn validate_document_structure(&self, body: &TfBody) -> (r: Result<(), ConnectUtilError>)
        ensures
            match r {
                Ok(_) => structure_result(body@) == Ok::<(), ErrorView>(()),
                Err(err) => structure_result(body@) == Err::<(), ErrorView>(err@),
            },
    {
        let mut seen = false;
        let mut i: usize = 0;
        proof {
            lemma_structure_views(body.structures@);
        }
        while i < body.structures.len()
            invariant
                0 <= i <= body.structures.len(),
                body@.structures.len() == body.structures@.len(),
                forall|j: int|
                    0 <= j < body.structures@.len() ==> (#[trigger] body@.structures[j])
                        == body.structures@[j]@,
                forall|j: int| 0 <= j < i ==> !misshapen_resource()(#[trigger] body@.structures[j]),
                !seen ==> forall|j: int|
                    0 <= j < i ==> !connector_resource()(#[trigger] body@.structures[j]),
                seen ==> exists|j: int|
                    0 <= j < i && connector_resource()(#[trigger] body@.structures[j]),
            decreases body.structures.len() - i,
        {
            assert(body@.structures[i as int] == body.structures@[i as int]@);
            match &body.structures[i] {
                TfStructure::Block(block) => {
                    proof {
                        assert(body@.structures[i as int] == StructureView::Block(block@));
                    }
                    if text_eq(block.identifier.as_str(), "resource") && block.labels.len() >= 2
                        && text_eq(block.labels[0].as_str(), "confluent_connector") {
                        assert(block@.labels[0] == block.labels@[0]@);
                        assert(block@.labels[1] == block.labels@[1]@);
                        assert(connector_resource()(body@.structures[i as int]));
                        seen = true;
                        match self.validate_resource_block(&block.body, block.labels[1].as_str()) {
                            Ok(_) => {},
                            Err(err) => {
                                proof {
                                    lemma_first_position_is(
                                        body@.structures,
                                        misshapen_resource(),
                                        i as int,
                                    );
                                }
                                return Err(err);
                            },
                        }
                    } else {
                        assert(block.labels@.len() >= 2 ==> block@.labels[0] == block.labels@[0]@);
                    }
                },
                TfStructure::Attribute(_) => {},
            }
            i = i + 1;
        }
        proof {
            lemma_first_position_is(
                body@.structures,
                misshapen_resource(),
                body@.structures.len() as int,
            );
        }
        if !seen {
            proof {
                lemma_first_position_is(
                    body@.structures,
                    connector_resource(),
                    body@.structures.len() as int,
                );
            }
            return Err(
                ConnectUtilError::Config(
                    "❌ No 'confluent_connector' resources found in file".to_string(),
                ),
            );
        }
        proof {
            lemma_first_position(body@.structures, connector_resource());
        }
        Ok(())
    }

    /// Checks the shape of every connector resource of a Terraform text.
    pub fn validate_terraform_structure(&self, terraform_content: &str) -> (r: Result<
        (),
        ConnectUtilError,
    >)
        ensures
            match r {
                Ok(_) => structure_check(terraform_content@) == Ok::<(), ErrorView>(()),
                Err(err) => structure_check(terraform_content@) == Err::<(), ErrorView>(err@),
            },
    {
        match self.read_document(terraform_content) {
            Ok(body) => self.validate_document_structure(&body),
            Err(err) => Err(err),
        }
    }
}

/// The view of a connector that may be there.
pub open spec fn option_config_view(config: Option<ConnectorConfig>) -> Option<
    ConnectorConfigView,
> {
    match config {
        Some(c) => Some(c@),
        None => None,
    }
}

} // verus!
