//! The generator: from a connector definition and a few options to the text
//! of a `confluent_connector` resource declaration.

use vstd::prelude::*;
use crate::document::{
    AttributeView, BlockView, BodyView, ExprView, KeyView, ObjectView, StructureView, TfBody,
    TfExpression, TfKey, TfObject, TfStructure, lemma_expression_views, lemma_object_position,
    lemma_put_distinct, lemma_put_other, lemma_put_value,
    lemma_structure_views, object_position, printable, printable_body, printable_entries,
    printable_items, printable_structure,
};
use crate::error::{ConnectUtilError, ErrorView};
use crate::search::{first_position, lemma_first_position_is};
use crate::text::{concat, concat3, contains_char, replace_char, replace_each, text_eq, texts};
use crate::trusted::{hcl_identifier, hcl_text, identifier_error, render_document};
use crate::types::{
    ConnectorDefinition, ConnectorDefinitionView, ConnectorType, DataFormat,
    TerraformConfigOptions, TerraformConfigOptionsView, table_entry,
};

verus! {

/// Writes resource declarations for connectors.
pub struct TerraformGenerator;

/// The label of the resource: the connector's name with `_` for each `-`.
pub open spec fn resource_name(connector_name: Seq<char>) -> Seq<char> {
    replace_each(connector_name, '-', "_"@)
}

/// How a key is written in an object: quoted where its text holds a `.`,
/// else bare.
pub open spec fn object_key(text: Seq<char>) -> KeyView {
    if text.contains('.') {
        KeyView::Quoted(text)
    } else {
        KeyView::Identifier(text)
    }
}

/// A format as a reference into the `schema_formats` table of the module's
/// locals, so that the table decides what the format is called.
pub open spec fn format_reference(format: DataFormat) -> ExprView {
    ExprView::Traversal {
        root: Box::new(ExprView::Variable("local"@)),
        attrs: seq!["schema_formats"@, table_entry(format)],
    }
}

/// The format that a connector writes where none is chosen: Parquet for the
/// S3 sink, Avro for every other connector.
pub open spec fn default_output_format(connector_name: Seq<char>) -> DataFormat {
    if connector_name == "S3_SINK"@ {
        DataFormat::Parquet
    } else {
        DataFormat::Avro
    }
}

/// The format that was chosen, or `default` where none was.
pub open spec fn format_or(chosen: Option<DataFormat>, default: DataFormat) -> DataFormat {
    match chosen {
        Some(format) => format,
        None => default,
    }
}

/// A reference to an input variable of the module, or to something in it.
pub open spec fn variable_reference(attrs: Seq<Seq<char>>) -> ExprView {
    ExprView::Traversal { root: Box::new(ExprView::Variable("var"@)), attrs }
}

impl ObjectView {
    /// The object after the key with text `key` was set to `value`.
    pub open spec fn set(self, key: Seq<char>, value: ExprView) -> ObjectView {
        self.put(object_key(key), value)
    }

    /// The object after the key with text `key` was set to the string `text`.
    pub open spec fn set_text(self, key: Seq<char>, text: Seq<char>) -> ObjectView {
        self.set(key, ExprView::Str(text))
    }

    /// Whether every value of the object is printable.
    pub open spec fn printable(self) -> bool {
        printable_entries(self.entries)
    }
}

/// Setting a key to a printable value keeps an object printable.
pub proof fn lemma_put_printable(o: ObjectView, key: KeyView, value: ExprView)
    requires
        o.printable(),
        printable(value),
    ensures
        o.put(key, value).printable(),
{
    lemma_object_position(o.entries, key);
    let after = o.put(key, value);
    assert forall|i: int| 0 <= i < after.entries.len() implies printable(
        (#[trigger] after.entries[i]).1,
    ) by {
        if i < o.entries.len() && i != object_position(o.entries, key) {
            assert(after.entries[i] == o.entries[i]);
        }
    }
}

/// The placeholder object for the sensitive settings: one entry per name.
pub open spec fn sensitive_object(names: Seq<Seq<char>>) -> ObjectView
    decreases names.len(),
{
    if names.len() == 0 {
        ObjectView::empty()
    } else {
        sensitive_object(names.drop_last()).set_text(
            names.last(),
            "<REPLACE_WITH_ACTUAL_VALUE>"@,
        )
    }
}

/// A name that can be written neither quoted nor bare: it holds no `.` and
/// is no identifier.
pub open spec fn unusable_key(name: Seq<char>) -> bool {
    !name.contains('.') && !hcl_identifier(name)
}

/// The condition of being unusable, as a value.
pub open spec fn is_unusable() -> spec_fn(Seq<char>) -> bool {
    |name: Seq<char>| unusable_key(name)
}

/// Whether a connector asks for a `topic.prefix`.
pub open spec fn wants_topic_prefix(connector: ConnectorDefinitionView) -> bool {
    exists|i: int|
        0 <= i < connector.required_configs.len() && (
        #[trigger] connector.required_configs[i]).name == "topic.prefix"@
}

/// The topics as `join(",", [..])`, which Terraform flattens to one string.
pub open spec fn joined_topics(topics: Seq<Seq<char>>) -> ExprView {
    ExprView::FuncCall {
        name: "join"@,
        args: seq![
            ExprView::Str(","@),
            ExprView::Array(Seq::new(topics.len(), |i: int| ExprView::Str(topics[i]))),
        ],
        expand_final: false,
    }
}

/// The object with what says where the connector reads or writes: a
/// placeholder where no topic is given, else the topics, behind a
/// placeholder prefix where the connector asks for one.
pub open spec fn with_topics(o: ObjectView, options: TerraformConfigOptionsView) -> ObjectView {
    if options.topics.len() == 0 {
        if options.connector.connector_type == ConnectorType::Sink {
            o.set_text("topics"@, "<REPLACE_WITH_TOPIC_NAME>"@)
        } else {
            o.set_text("topic.prefix"@, "<REPLACE_WITH_TOPIC_PREFIX>"@)
        }
    } else {
        (if wants_topic_prefix(options.connector) {
            o.set_text("topic.prefix"@, "<REPLACE_WITH_TOPIC_PREFIX>"@)
        } else {
            o
        }).set("topics"@, joined_topics(options.topics))
    }
}

/// What a PostgreSQL change-data-capture source starts from.
pub open spec fn postgres_cdc_source_v2_settings(o: ObjectView) -> ObjectView {
    o.set_text("database.hostname"@, "<REPLACE_WITH_DATABASE_HOST>"@)
        .set_text("database.port"@, "5432"@)
        .set_text("database.user"@, "<REPLACE_WITH_DATABASE_USER>"@)
        .set_text("database.dbname"@, "<REPLACE_WITH_DATABASE_NAME>"@)
        .set_text("database.sslmode"@, "require"@)
        .set_text("publication.name"@, "dbz_publication"@)
        .set_text("publication.autocreate.mode"@, "filtered"@)
        .set_text("snapshot.mode"@, "initial"@)
        .set_text("tombstones.on.delete"@, "true"@)
        .set_text("plugin.name"@, "pgoutput"@)
        .set_text("slot.name"@, "dbz"@)
        .set_text("poll.interval.ms"@, "1000"@)
        .set_text("max.batch.size"@, "1000"@)
        .set_text("event.processing.failure.handling.mode"@, "fail"@)
        .set_text("heartbeat.interval.ms"@, "0"@)
        .set_text("provide.transaction.metadata"@, "false"@)
        .set_text("decimal.handling.mode"@, "precise"@)
        .set_text("binary.handling.mode"@, "bytes"@)
        .set_text("time.precision.mode"@, "adaptive"@)
        .set_text("cleanup.policy"@, "delete"@)
        .set_text("hstore.handling.mode"@, "json"@)
        .set_text("interval.handling.mode"@, "numeric"@)
        .set_text("schema.refresh.mode"@, "columns_diff"@)
        .set_text("after.state.only"@, "false"@)
        .set("output.key.format"@, format_reference(DataFormat::Avro))
}

/// What a MySQL change-data-capture source starts from.
pub open spec fn mysql_cdc_source_v2_settings(o: ObjectView) -> ObjectView {
    o.set_text("database.server.name"@, "<REPLACE_WITH_SERVER_NAME>"@)
        .set_text("database.ssl.mode"@, "preferred"@)
        .set_text("snapshot.mode"@, "initial"@)
        .set_text("binlog.buffer.size"@, "8192"@)
        .set_text("max.batch.size"@, "2048"@)
        .set_text("max.queue.size"@, "8192"@)
        .set_text("poll.interval.ms"@, "1000"@)
        .set_text("connect.timeout.ms"@, "30000"@)
        .set_text("socket.timeout.ms"@, "30000"@)
        .set_text("heartbeat.interval.ms"@, "0"@)
        .set_text("provide.transaction.metadata"@, "false"@)
        .set_text("decimal.handling.mode"@, "precise"@)
        .set_text("bigint.unsigned.handling.mode"@, "long"@)
        .set_text("binary.handling.mode"@, "bytes"@)
        .set_text("time.precision.mode"@, "adaptive"@)
        .set_text("cleanup.policy"@, "delete"@)
        .set_text("schema.refresh.mode"@, "columns_diff"@)
        .set_text("after.state.only"@, "false"@)
        .set("output.key.format"@, format_reference(DataFormat::Avro))
}

/// What an S3 sink starts from. Where no format is chosen, it reads Avro and
/// writes Parquet.
pub open spec fn s3_sink_settings(
    o: ObjectView,
    input: Option<DataFormat>,
    output: Option<DataFormat>,
) -> ObjectView {
    o.set_text("s3.bucket.name"@, "<REPLACE_WITH_BUCKET_NAME>"@)
        .set_text("s3.wan.mode"@, "false"@)
        .set("input.data.format"@, format_reference(format_or(input, DataFormat::Avro)))
        .set("output.data.format"@, format_reference(format_or(output, DataFormat::Parquet)))
        .set_text("topics.dir"@, "<REPLACE_WITH_TOPICS_DIR>"@)
        .set_text("path.format"@, "'effective_date'=YYYY-MM-dd"@)
        .set_text("time.interval"@, "HOURLY"@)
        .set_text("rotate.schedule.interval.ms"@, "3600000"@)
        .set_text("rotate.interval.ms"@, "3600000"@)
        .set_text("flush.size"@, "100000"@)
        .set_text("compression.codec"@, "PARQUET - gzip"@)
        .set_text("s3.compression.level"@, "6"@)
        .set_text("s3.part.size"@, "5242880"@)
        .set_text("kafka.max.partition.validation.disable"@, "false"@)
}

/// What a PostgreSQL query source starts from.
pub open spec fn postgresql_source_settings(o: ObjectView) -> ObjectView {
    o.set_text("connection.host"@, "<REPLACE_WITH_DB_HOST>"@)
        .set_text("connection.port"@, "5432"@)
        .set_text("connection.user"@, "<REPLACE_WITH_DB_USER>"@)
        .set_text("db.name"@, "<REPLACE_WITH_DB_NAME>"@)
        .set_text("ssl.mode"@, "prefer"@)
        .set_text("table.whitelist"@, "<REPLACE_WITH_TABLE_LIST>"@)
        .set_text("mode"@, "timestamp"@)
        .set_text("poll.interval.ms"@, "5000"@)
        .set_text("db.timezone"@, "UTC"@)
        .set_text("table.types"@, "TABLE"@)
}

/// What a PostgreSQL sink starts from.
pub open spec fn postgres_sink_settings(o: ObjectView) -> ObjectView {
    o.set_text("connection.host"@, "<REPLACE_WITH_DB_HOST>"@)
        .set_text("connection.port"@, "5432"@)
        .set_text("connection.user"@, "<REPLACE_WITH_DB_USER>"@)
        .set_text("db.name"@, "<REPLACE_WITH_DB_NAME>"@)
        .set_text("ssl.mode"@, "prefer"@)
        .set_text("insert.mode"@, "UPSERT"@)
        .set_text("table.name.format"@, "<REPLACE_WITH_TABLE_FORMAT>"@)
        .set_text("table.types"@, "TABLE"@)
        .set_text("db.timezone"@, "UTC"@)
        .set_text("pk.mode"@, "record_value"@)
        .set_text("pk.fields"@, "<REPLACE_WITH_PK_FIELDS>"@)
        .set_text("auto.create"@, "false"@)
        .set_text("auto.evolve"@, "false"@)
        .set_text("batch.sizes"@, "5000"@)
        .set_text("max.poll.records"@, "2500"@)
}

/// What a MySQL query source starts from.
pub open spec fn mysql_source_settings(o: ObjectView) -> ObjectView {
    o.set_text("connection.host"@, "<REPLACE_WITH_DB_HOST>"@)
        .set_text("connection.port"@, "3306"@)
        .set_text("connection.user"@, "<REPLACE_WITH_DB_USER>"@)
        .set_text("db.name"@, "<REPLACE_WITH_DB_NAME>"@)
        .set_text("ssl.mode"@, "preferred"@)
        .set_text("table.whitelist"@, "<REPLACE_WITH_TABLE_LIST>"@)
        .set_text("mode"@, "timestamp"@)
        .set_text("poll.interval.ms"@, "5000"@)
        .set_text("db.timezone"@, "UTC"@)
        .set_text("table.types"@, "TABLE"@)
}

/// What a MySQL sink starts from.
pub open spec fn mysql_sink_settings(o: ObjectView) -> ObjectView {
    o.set_text("connection.host"@, "<REPLACE_WITH_DB_HOST>"@)
        .set_text("connection.port"@, "3306"@)
        .set_text("connection.user"@, "<REPLACE_WITH_DB_USER>"@)
        .set_text("db.name"@, "<REPLACE_WITH_DB_NAME>"@)
        .set_text("ssl.mode"@, "preferred"@)
        .set_text("insert.mode"@, "UPSERT"@)
        .set_text("table.name.format"@, "<REPLACE_WITH_TABLE_FORMAT>"@)
        .set_text("table.types"@, "TABLE"@)
        .set_text("db.timezone"@, "UTC"@)
        .set_text("pk.mode"@, "record_value"@)
        .set_text("pk.fields"@, "<REPLACE_WITH_PK_FIELDS>"@)
        .set_text("auto.create"@, "false"@)
        .set_text("auto.evolve"@, "false"@)
        .set_text("batch.sizes"@, "5000"@)
        .set_text("max.poll.records"@, "2500"@)
}

/// The settings that the generator adds for the connector called `name`;
/// a name that it does not know adds nothing.
pub open spec fn connector_settings(
    o: ObjectView,
    name: Seq<char>,
    input: Option<DataFormat>,
    output: Option<DataFormat>,
) -> ObjectView {
    if name == "PostgresCdcSourceV2"@ {
        postgres_cdc_source_v2_settings(o)
    } else if name == "MySqlCdcSourceV2"@ {
        mysql_cdc_source_v2_settings(o)
    } else if name == "S3_SINK"@ {
        s3_sink_settings(o, input, output)
    } else if name == "PostgreSQLSource"@ {
        postgresql_source_settings(o)
    } else if name == "PostgresSink"@ {
        postgres_sink_settings(o)
    } else if name == "MySQLSource"@ {
        mysql_source_settings(o)
    } else if name == "MySQLSink"@ {
        mysql_sink_settings(o)
    } else {
        o
    }
}

/// These settings never make a key occur twice.
proof fn lemma_postgres_cdc_source_v2_settings_distinct(
    o: ObjectView,
)
    requires
        o.distinct(),
    ensures
        postgres_cdc_source_v2_settings(o).distinct(),
{
    lemma_put_distinct(o, object_key("database.hostname"@), ExprView::Str("<REPLACE_WITH_DATABASE_HOST>"@));
    let o1 = o.set("database.hostname"@, ExprView::Str("<REPLACE_WITH_DATABASE_HOST>"@));
    lemma_put_distinct(o1, object_key("database.port"@), ExprView::Str("5432"@));
    let o2 = o1.set("database.port"@, ExprView::Str("5432"@));
    lemma_put_distinct(o2, object_key("database.user"@), ExprView::Str("<REPLACE_WITH_DATABASE_USER>"@));
    let o3 = o2.set("database.user"@, ExprView::Str("<REPLACE_WITH_DATABASE_USER>"@));
    lemma_put_distinct(o3, object_key("database.dbname"@), ExprView::Str("<REPLACE_WITH_DATABASE_NAME>"@));
    let o4 = o3.set("database.dbname"@, ExprView::Str("<REPLACE_WITH_DATABASE_NAME>"@));
    lemma_put_distinct(o4, object_key("database.sslmode"@), ExprView::Str("require"@));
    let o5 = o4.set("database.sslmode"@, ExprView::Str("require"@));
    lemma_put_distinct(o5, object_key("publication.name"@), ExprView::Str("dbz_publication"@));
    let o6 = o5.set("publication.name"@, ExprView::Str("dbz_publication"@));
    lemma_put_distinct(o6, object_key("publication.autocreate.mode"@), ExprView::Str("filtered"@));
    let o7 = o6.set("publication.autocreate.mode"@, ExprView::Str("filtered"@));
    lemma_put_distinct(o7, object_key("snapshot.mode"@), ExprView::Str("initial"@));
    let o8 = o7.set("snapshot.mode"@, ExprView::Str("initial"@));
    lemma_put_distinct(o8, object_key("tombstones.on.delete"@), ExprView::Str("true"@));
    let o9 = o8.set("tombstones.on.delete"@, ExprView::Str("true"@));
    lemma_put_distinct(o9, object_key("plugin.name"@), ExprView::Str("pgoutput"@));
    let o10 = o9.set("plugin.name"@, ExprView::Str("pgoutput"@));
    lemma_put_distinct(o10, object_key("slot.name"@), ExprView::Str("dbz"@));
    let o11 = o10.set("slot.name"@, ExprView::Str("dbz"@));
    lemma_put_distinct(o11, object_key("poll.interval.ms"@), ExprView::Str("1000"@));
    let o12 = o11.set("poll.interval.ms"@, ExprView::Str("1000"@));
    lemma_put_distinct(o12, object_key("max.batch.size"@), ExprView::Str("1000"@));
    let o13 = o12.set("max.batch.size"@, ExprView::Str("1000"@));
    lemma_put_distinct(o13, object_key("event.processing.failure.handling.mode"@), ExprView::Str("fail"@));
    let o14 = o13.set("event.processing.failure.handling.mode"@, ExprView::Str("fail"@));
    lemma_put_distinct(o14, object_key("heartbeat.interval.ms"@), ExprView::Str("0"@));
    let o15 = o14.set("heartbeat.interval.ms"@, ExprView::Str("0"@));
    lemma_put_distinct(o15, object_key("provide.transaction.metadata"@), ExprView::Str("false"@));
    let o16 = o15.set("provide.transaction.metadata"@, ExprView::Str("false"@));
    lemma_put_distinct(o16, object_key("decimal.handling.mode"@), ExprView::Str("precise"@));
    let o17 = o16.set("decimal.handling.mode"@, ExprView::Str("precise"@));
    lemma_put_distinct(o17, object_key("binary.handling.mode"@), ExprView::Str("bytes"@));
    let o18 = o17.set("binary.handling.mode"@, ExprView::Str("bytes"@));
    lemma_put_distinct(o18, object_key("time.precision.mode"@), ExprView::Str("adaptive"@));
    let o19 = o18.set("time.precision.mode"@, ExprView::Str("adaptive"@));
    lemma_put_distinct(o19, object_key("cleanup.policy"@), ExprView::Str("delete"@));
    let o20 = o19.set("cleanup.policy"@, ExprView::Str("delete"@));
    lemma_put_distinct(o20, object_key("hstore.handling.mode"@), ExprView::Str("json"@));
    let o21 = o20.set("hstore.handling.mode"@, ExprView::Str("json"@));
    lemma_put_distinct(o21, object_key("interval.handling.mode"@), ExprView::Str("numeric"@));
    let o22 = o21.set("interval.handling.mode"@, ExprView::Str("numeric"@));
    lemma_put_distinct(o22, object_key("schema.refresh.mode"@), ExprView::Str("columns_diff"@));
    let o23 = o22.set("schema.refresh.mode"@, ExprView::Str("columns_diff"@));
    lemma_put_distinct(o23, object_key("after.state.only"@), ExprView::Str("false"@));
    let o24 = o23.set("after.state.only"@, ExprView::Str("false"@));
    lemma_put_distinct(o24, object_key("output.key.format"@), format_reference(DataFormat::Avro));
    let o25 = o24.set("output.key.format"@, format_reference(DataFormat::Avro));
}

/// These settings never make a key occur twice.
proof fn lemma_mysql_cdc_source_v2_settings_distinct(
    o: ObjectView,
)
    requires
        o.distinct(),
    ensures
        mysql_cdc_source_v2_settings(o).distinct(),
{
    lemma_put_distinct(o, object_key("database.server.name"@), ExprView::Str("<REPLACE_WITH_SERVER_NAME>"@));
    let o1 = o.set("database.server.name"@, ExprView::Str("<REPLACE_WITH_SERVER_NAME>"@));
    lemma_put_distinct(o1, object_key("database.ssl.mode"@), ExprView::Str("preferred"@));
    let o2 = o1.set("database.ssl.mode"@, ExprView::Str("preferred"@));
    lemma_put_distinct(o2, object_key("snapshot.mode"@), ExprView::Str("initial"@));
    let o3 = o2.set("snapshot.mode"@, ExprView::Str("initial"@));
    lemma_put_distinct(o3, object_key("binlog.buffer.size"@), ExprView::Str("8192"@));
    let o4 = o3.set("binlog.buffer.size"@, ExprView::Str("8192"@));
    lemma_put_distinct(o4, object_key("max.batch.size"@), ExprView::Str("2048"@));
    let o5 = o4.set("max.batch.size"@, ExprView::Str("2048"@));
    lemma_put_distinct(o5, object_key("max.queue.size"@), ExprView::Str("8192"@));
    let o6 = o5.set("max.queue.size"@, ExprView::Str("8192"@));
    lemma_put_distinct(o6, object_key("poll.interval.ms"@), ExprView::Str("1000"@));
    let o7 = o6.set("poll.interval.ms"@, ExprView::Str("1000"@));
    lemma_put_distinct(o7, object_key("connect.timeout.ms"@), ExprView::Str("30000"@));
    let o8 = o7.set("connect.timeout.ms"@, ExprView::Str("30000"@));
    lemma_put_distinct(o8, object_key("socket.timeout.ms"@), ExprView::Str("30000"@));
    let o9 = o8.set("socket.timeout.ms"@, ExprView::Str("30000"@));
    lemma_put_distinct(o9, object_key("heartbeat.interval.ms"@), ExprView::Str("0"@));
    let o10 = o9.set("heartbeat.interval.ms"@, ExprView::Str("0"@));
    lemma_put_distinct(o10, object_key("provide.transaction.metadata"@), ExprView::Str("false"@));
    let o11 = o10.set("provide.transaction.metadata"@, ExprView::Str("false"@));
    lemma_put_distinct(o11, object_key("decimal.handling.mode"@), ExprView::Str("precise"@));
    let o12 = o11.set("decimal.handling.mode"@, ExprView::Str("precise"@));
    lemma_put_distinct(o12, object_key("bigint.unsigned.handling.mode"@), ExprView::Str("long"@));
    let o13 = o12.set("bigint.unsigned.handling.mode"@, ExprView::Str("long"@));
    lemma_put_distinct(o13, object_key("binary.handling.mode"@), ExprView::Str("bytes"@));
    let o14 = o13.set("binary.handling.mode"@, ExprView::Str("bytes"@));
    lemma_put_distinct(o14, object_key("time.precision.mode"@), ExprView::Str("adaptive"@));
    let o15 = o14.set("time.precision.mode"@, ExprView::Str("adaptive"@));
    lemma_put_distinct(o15, object_key("cleanup.policy"@), ExprView::Str("delete"@));
    let o16 = o15.set("cleanup.policy"@, ExprView::Str("delete"@));
    lemma_put_distinct(o16, object_key("schema.refresh.mode"@), ExprView::Str("columns_diff"@));
    let o17 = o16.set("schema.refresh.mode"@, ExprView::Str("columns_diff"@));
    lemma_put_distinct(o17, object_key("after.state.only"@), ExprView::Str("false"@));
    let o18 = o17.set("after.state.only"@, ExprView::Str("false"@));
    lemma_put_distinct(o18, object_key("output.key.format"@), format_reference(DataFormat::Avro));
    let o19 = o18.set("output.key.format"@, format_reference(DataFormat::Avro));
}

/// These settings never make a key occur twice.
proof fn lemma_s3_sink_settings_distinct(
    o: ObjectView,
    input: Option<DataFormat>,
    output: Option<DataFormat>,
)
    requires
        o.distinct(),
    ensures
        s3_sink_settings(o, input, output).distinct(),
{
    lemma_put_distinct(o, object_key("s3.bucket.name"@), ExprView::Str("<REPLACE_WITH_BUCKET_NAME>"@));
    let o1 = o.set("s3.bucket.name"@, ExprView::Str("<REPLACE_WITH_BUCKET_NAME>"@));
    lemma_put_distinct(o1, object_key("s3.wan.mode"@), ExprView::Str("false"@));
    let o2 = o1.set("s3.wan.mode"@, ExprView::Str("false"@));
    lemma_put_distinct(o2, object_key("input.data.format"@), format_reference(format_or(input, DataFormat::Avro)));
    let o3 = o2.set("input.data.format"@, format_reference(format_or(input, DataFormat::Avro)));
    lemma_put_distinct(o3, object_key("output.data.format"@), format_reference(format_or(output, DataFormat::Parquet)));
    let o4 = o3.set("output.data.format"@, format_reference(format_or(output, DataFormat::Parquet)));
    lemma_put_distinct(o4, object_key("topics.dir"@), ExprView::Str("<REPLACE_WITH_TOPICS_DIR>"@));
    let o5 = o4.set("topics.dir"@, ExprView::Str("<REPLACE_WITH_TOPICS_DIR>"@));
    lemma_put_distinct(o5, object_key("path.format"@), ExprView::Str("'effective_date'=YYYY-MM-dd"@));
    let o6 = o5.set("path.format"@, ExprView::Str("'effective_date'=YYYY-MM-dd"@));
    lemma_put_distinct(o6, object_key("time.interval"@), ExprView::Str("HOURLY"@));
    let o7 = o6.set("time.interval"@, ExprView::Str("HOURLY"@));
    lemma_put_distinct(o7, object_key("rotate.schedule.interval.ms"@), ExprView::Str("3600000"@));
    let o8 = o7.set("rotate.schedule.interval.ms"@, ExprView::Str("3600000"@));
    lemma_put_distinct(o8, object_key("rotate.interval.ms"@), ExprView::Str("3600000"@));
    let o9 = o8.set("rotate.interval.ms"@, ExprView::Str("3600000"@));
    lemma_put_distinct(o9, object_key("flush.size"@), ExprView::Str("100000"@));
    let o10 = o9.set("flush.size"@, ExprView::Str("100000"@));
    lemma_put_distinct(o10, object_key("compression.codec"@), ExprView::Str("PARQUET - gzip"@));
    let o11 = o10.set("compression.codec"@, ExprView::Str("PARQUET - gzip"@));
    lemma_put_distinct(o11, object_key("s3.compression.level"@), ExprView::Str("6"@));
    let o12 = o11.set("s3.compression.level"@, ExprView::Str("6"@));
    lemma_put_distinct(o12, object_key("s3.part.size"@), ExprView::Str("5242880"@));
    let o13 = o12.set("s3.part.size"@, ExprView::Str("5242880"@));
    lemma_put_distinct(o13, object_key("kafka.max.partition.validation.disable"@), ExprView::Str("false"@));
    let o14 = o13.set("kafka.max.partition.validation.disable"@, ExprView::Str("false"@));
}

/// These settings never make a key occur twice.
proof fn lemma_postgresql_source_settings_distinct(
    o: ObjectView,
)
    requires
        o.distinct(),
    ensures
        postgresql_source_settings(o).distinct(),
{
    lemma_put_distinct(o, object_key("connection.host"@), ExprView::Str("<REPLACE_WITH_DB_HOST>"@));
    let o1 = o.set("connection.host"@, ExprView::Str("<REPLACE_WITH_DB_HOST>"@));
    lemma_put_distinct(o1, object_key("connection.port"@), ExprView::Str("5432"@));
    let o2 = o1.set("connection.port"@, ExprView::Str("5432"@));
    lemma_put_distinct(o2, object_key("connection.user"@), ExprView::Str("<REPLACE_WITH_DB_USER>"@));
    let o3 = o2.set("connection.user"@, ExprView::Str("<REPLACE_WITH_DB_USER>"@));
    lemma_put_distinct(o3, object_key("db.name"@), ExprView::Str("<REPLACE_WITH_DB_NAME>"@));
    let o4 = o3.set("db.name"@, ExprView::Str("<REPLACE_WITH_DB_NAME>"@));
    lemma_put_distinct(o4, object_key("ssl.mode"@), ExprView::Str("prefer"@));
    let o5 = o4.set("ssl.mode"@, ExprView::Str("prefer"@));
    lemma_put_distinct(o5, object_key("table.whitelist"@), ExprView::Str("<REPLACE_WITH_TABLE_LIST>"@));
    let o6 = o5.set("table.whitelist"@, ExprView::Str("<REPLACE_WITH_TABLE_LIST>"@));
    lemma_put_distinct(o6, object_key("mode"@), ExprView::Str("timestamp"@));
    let o7 = o6.set("mode"@, ExprView::Str("timestamp"@));
    lemma_put_distinct(o7, object_key("poll.interval.ms"@), ExprView::Str("5000"@));
    let o8 = o7.set("poll.interval.ms"@, ExprView::Str("5000"@));
    lemma_put_distinct(o8, object_key("db.timezone"@), ExprView::Str("UTC"@));
    let o9 = o8.set("db.timezone"@, ExprView::Str("UTC"@));
    lemma_put_distinct(o9, object_key("table.types"@), ExprView::Str("TABLE"@));
    let o10 = o9.set("table.types"@, ExprView::Str("TABLE"@));
}

/// These settings never make a key occur twice.
proof fn lemma_postgres_sink_settings_distinct(
    o: ObjectView,
)
    requires
        o.distinct(),
    ensures
        postgres_sink_settings(o).distinct(),
{
    lemma_put_distinct(o, object_key("connection.host"@), ExprView::Str("<REPLACE_WITH_DB_HOST>"@));
    let o1 = o.set("connection.host"@, ExprView::Str("<REPLACE_WITH_DB_HOST>"@));
    lemma_put_distinct(o1, object_key("connection.port"@), ExprView::Str("5432"@));
    let o2 = o1.set("connection.port"@, ExprView::Str("5432"@));
    lemma_put_distinct(o2, object_key("connection.user"@), ExprView::Str("<REPLACE_WITH_DB_USER>"@));
    let o3 = o2.set("connection.user"@, ExprView::Str("<REPLACE_WITH_DB_USER>"@));
    lemma_put_distinct(o3, object_key("db.name"@), ExprView::Str("<REPLACE_WITH_DB_NAME>"@));
    let o4 = o3.set("db.name"@, ExprView::Str("<REPLACE_WITH_DB_NAME>"@));
    lemma_put_distinct(o4, object_key("ssl.mode"@), ExprView::Str("prefer"@));
    let o5 = o4.set("ssl.mode"@, ExprView::Str("prefer"@));
    lemma_put_distinct(o5, object_key("insert.mode"@), ExprView::Str("UPSERT"@));
    let o6 = o5.set("insert.mode"@, ExprView::Str("UPSERT"@));
    lemma_put_distinct(o6, object_key("table.name.format"@), ExprView::Str("<REPLACE_WITH_TABLE_FORMAT>"@));
    let o7 = o6.set("table.name.format"@, ExprView::Str("<REPLACE_WITH_TABLE_FORMAT>"@));
    lemma_put_distinct(o7, object_key("table.types"@), ExprView::Str("TABLE"@));
    let o8 = o7.set("table.types"@, ExprView::Str("TABLE"@));
    lemma_put_distinct(o8, object_key("db.timezone"@), ExprView::Str("UTC"@));
    let o9 = o8.set("db.timezone"@, ExprView::Str("UTC"@));
    lemma_put_distinct(o9, object_key("pk.mode"@), ExprView::Str("record_value"@));
    let o10 = o9.set("pk.mode"@, ExprView::Str("record_value"@));
    lemma_put_distinct(o10, object_key("pk.fields"@), ExprView::Str("<REPLACE_WITH_PK_FIELDS>"@));
    let o11 = o10.set("pk.fields"@, ExprView::Str("<REPLACE_WITH_PK_FIELDS>"@));
    lemma_put_distinct(o11, object_key("auto.create"@), ExprView::Str("false"@));
    let o12 = o11.set("auto.create"@, ExprView::Str("false"@));
    lemma_put_distinct(o12, object_key("auto.evolve"@), ExprView::Str("false"@));
    let o13 = o12.set("auto.evolve"@, ExprView::Str("false"@));
    lemma_put_distinct(o13, object_key("batch.sizes"@), ExprView::Str("5000"@));
    let o14 = o13.set("batch.sizes"@, ExprView::Str("5000"@));
    lemma_put_distinct(o14, object_key("max.poll.records"@), ExprView::Str("2500"@));
    let o15 = o14.set("max.poll.records"@, ExprView::Str("2500"@));
}

/// These settings never make a key occur twice.
proof fn lemma_mysql_source_settings_distinct(
    o: ObjectView,
)
    requires
        o.distinct(),
    ensures
        mysql_source_settings(o).distinct(),
{
    lemma_put_distinct(o, object_key("connection.host"@), ExprView::Str("<REPLACE_WITH_DB_HOST>"@));
    let o1 = o.set("connection.host"@, ExprView::Str("<REPLACE_WITH_DB_HOST>"@));
    lemma_put_distinct(o1, object_key("connection.port"@), ExprView::Str("3306"@));
    let o2 = o1.set("connection.port"@, ExprView::Str("3306"@));
    lemma_put_distinct(o2, object_key("connection.user"@), ExprView::Str("<REPLACE_WITH_DB_USER>"@));
    let o3 = o2.set("connection.user"@, ExprView::Str("<REPLACE_WITH_DB_USER>"@));
    lemma_put_distinct(o3, object_key("db.name"@), ExprView::Str("<REPLACE_WITH_DB_NAME>"@));
    let o4 = o3.set("db.name"@, ExprView::Str("<REPLACE_WITH_DB_NAME>"@));
    lemma_put_distinct(o4, object_key("ssl.mode"@), ExprView::Str("preferred"@));
    let o5 = o4.set("ssl.mode"@, ExprView::Str("preferred"@));
    lemma_put_distinct(o5, object_key("table.whitelist"@), ExprView::Str("<REPLACE_WITH_TABLE_LIST>"@));
    let o6 = o5.set("table.whitelist"@, ExprView::Str("<REPLACE_WITH_TABLE_LIST>"@));
    lemma_put_distinct(o6, object_key("mode"@), ExprView::Str("timestamp"@));
    let o7 = o6.set("mode"@, ExprView::Str("timestamp"@));
    lemma_put_distinct(o7, object_key("poll.interval.ms"@), ExprView::Str("5000"@));
    let o8 = o7.set("poll.interval.ms"@, ExprView::Str("5000"@));
    lemma_put_distinct(o8, object_key("db.timezone"@), ExprView::Str("UTC"@));
    let o9 = o8.set("db.timezone"@, ExprView::Str("UTC"@));
    lemma_put_distinct(o9, object_key("table.types"@), ExprView::Str("TABLE"@));
    let o10 = o9.set("table.types"@, ExprView::Str("TABLE"@));
}

/// These settings never make a key occur twice.
proof fn lemma_mysql_sink_settings_distinct(
    o: ObjectView,
)
    requires
        o.distinct(),
    ensures
        mysql_sink_settings(o).distinct(),
{
    lemma_put_distinct(o, object_key("connection.host"@), ExprView::Str("<REPLACE_WITH_DB_HOST>"@));
    let o1 = o.set("connection.host"@, ExprView::Str("<REPLACE_WITH_DB_HOST>"@));
    lemma_put_distinct(o1, object_key("connection.port"@), ExprView::Str("3306"@));
    let o2 = o1.set("connection.port"@, ExprView::Str("3306"@));
    lemma_put_distinct(o2, object_key("connection.user"@), ExprView::Str("<REPLACE_WITH_DB_USER>"@));
    let o3 = o2.set("connection.user"@, ExprView::Str("<REPLACE_WITH_DB_USER>"@));
    lemma_put_distinct(o3, object_key("db.name"@), ExprView::Str("<REPLACE_WITH_DB_NAME>"@));
    let o4 = o3.set("db.name"@, ExprView::Str("<REPLACE_WITH_DB_NAME>"@));
    lemma_put_distinct(o4, object_key("ssl.mode"@), ExprView::Str("preferred"@));
    let o5 = o4.set("ssl.mode"@, ExprView::Str("preferred"@));
    lemma_put_distinct(o5, object_key("insert.mode"@), ExprView::Str("UPSERT"@));
    let o6 = o5.set("insert.mode"@, ExprView::Str("UPSERT"@));
    lemma_put_distinct(o6, object_key("table.name.format"@), ExprView::Str("<REPLACE_WITH_TABLE_FORMAT>"@));
    let o7 = o6.set("table.name.format"@, ExprView::Str("<REPLACE_WITH_TABLE_FORMAT>"@));
    lemma_put_distinct(o7, object_key("table.types"@), ExprView::Str("TABLE"@));
    let o8 = o7.set("table.types"@, ExprView::Str("TABLE"@));
    lemma_put_distinct(o8, object_key("db.timezone"@), ExprView::Str("UTC"@));
    let o9 = o8.set("db.timezone"@, ExprView::Str("UTC"@));
    lemma_put_distinct(o9, object_key("pk.mode"@), ExprView::Str("record_value"@));
    let o10 = o9.set("pk.mode"@, ExprView::Str("record_value"@));
    lemma_put_distinct(o10, object_key("pk.fields"@), ExprView::Str("<REPLACE_WITH_PK_FIELDS>"@));
    let o11 = o10.set("pk.fields"@, ExprView::Str("<REPLACE_WITH_PK_FIELDS>"@));
    lemma_put_distinct(o11, object_key("auto.create"@), ExprView::Str("false"@));
    let o12 = o11.set("auto.create"@, ExprView::Str("false"@));
    lemma_put_distinct(o12, object_key("auto.evolve"@), ExprView::Str("false"@));
    let o13 = o12.set("auto.evolve"@, ExprView::Str("false"@));
    lemma_put_distinct(o13, object_key("batch.sizes"@), ExprView::Str("5000"@));
    let o14 = o13.set("batch.sizes"@, ExprView::Str("5000"@));
    lemma_put_distinct(o14, object_key("max.poll.records"@), ExprView::Str("2500"@));
    let o15 = o14.set("max.poll.records"@, ExprView::Str("2500"@));
}

/// What a connector of a name adds never makes a key occur twice.
proof fn lemma_connector_settings_distinct(
    o: ObjectView,
    name: Seq<char>,
    input: Option<DataFormat>,
    output: Option<DataFormat>,
)
    requires
        o.distinct(),
    ensures
        connector_settings(o, name, input, output).distinct(),
{
    if name == "PostgresCdcSourceV2"@ {
        lemma_postgres_cdc_source_v2_settings_distinct(o);
    } else if name == "MySqlCdcSourceV2"@ {
        lemma_mysql_cdc_source_v2_settings_distinct(o);
    } else if name == "S3_SINK"@ {
        lemma_s3_sink_settings_distinct(o, input, output);
    } else if name == "PostgreSQLSource"@ {
        lemma_postgresql_source_settings_distinct(o);
    } else if name == "PostgresSink"@ {
        lemma_postgres_sink_settings_distinct(o);
    } else if name == "MySQLSource"@ {
        lemma_mysql_source_settings_distinct(o);
    } else if name == "MySQLSink"@ {
        lemma_mysql_sink_settings_distinct(o);
    }
}

/// The object of the settings that are no secrets: what every connector
/// starts with, where it reads or writes, what a connector of its name adds,
/// and behind that the output format (the connector's default where none is
/// chosen) and the number of tasks. A setting that is set twice keeps its
/// first place and takes its last value.
pub open spec fn nonsensitive_object(options: TerraformConfigOptionsView) -> ObjectView {
    connector_settings(
        with_topics(
            ObjectView::empty()
                .set_text("connector.class"@, options.connector.connector_class)
                .set_text("name"@, options.connector_name)
                .set_text("kafka.auth.mode"@, "SERVICE_ACCOUNT"@)
                .set_text("kafka.deployment.type"@, "DEDICATED"@),
            options,
        ),
        options.connector.name,
        options.input_data_format,
        options.output_data_format,
    )
        .set(
            "output.data.format"@,
            format_reference(
                format_or(
                    options.output_data_format,
                    default_output_format(options.connector.name),
                ),
            ),
        )
        .set_text("tasks.max"@, "1"@)
}

/// A body that holds `id = var.<attrs>` and nothing else.
pub open spec fn id_body(attrs: Seq<Seq<char>>) -> BodyView {
    BodyView {
        structures: seq![
            StructureView::Attribute(
                AttributeView { key: "id"@, expr: variable_reference(attrs) },
            ),
        ],
    }
}

/// The settings whose changes Terraform is told to overlook.
pub open spec fn ignored_changes() -> ExprView {
    ExprView::Array(
        seq![
            ExprView::Str("config_nonsensitive[\"kafka.deployment.type\"]"@),
            ExprView::Str("config_nonsensitive[\"kafka.max.partition.validation.disable\"]"@),
            ExprView::Str("config_nonsensitive[\"kafka.max.partition.validation.enable\"]"@),
            ExprView::Str("config_nonsensitive[\"kafka.max.partition.validation\"]"@),
        ],
    )
}

/// The resource block of a connector.
pub open spec fn resource_block(options: TerraformConfigOptionsView) -> BlockView {
    BlockView {
        identifier: "resource"@,
        labels: seq!["confluent_connector"@, resource_name(options.connector_name)],
        body: BodyView {
            structures: seq![
                StructureView::Attribute(
                    AttributeView { key: "status"@, expr: variable_reference(seq!["status"@]) },
                ),
                StructureView::Block(
                    BlockView {
                        identifier: "environment"@,
                        labels: Seq::empty(),
                        body: id_body(seq!["environment_id"@]),
                    },
                ),
                StructureView::Block(
                    BlockView {
                        identifier: "kafka_cluster"@,
                        labels: Seq::empty(),
                        body: id_body(seq!["kafka_cluster"@, "id"@]),
                    },
                ),
                StructureView::Attribute(
                    AttributeView {
                        key: "config_sensitive"@,
                        expr: ExprView::Object(sensitive_object(options.connector.sensitive_configs)),
                    },
                ),
                StructureView::Attribute(
                    AttributeView {
                        key: "config_nonsensitive"@,
                        expr: ExprView::Object(nonsensitive_object(options)),
                    },
                ),
                StructureView::Block(
                    BlockView {
                        identifier: "lifecycle"@,
                        labels: Seq::empty(),
                        body: BodyView {
                            structures: seq![
                                StructureView::Attribute(
                                    AttributeView {
                                        key: "ignore_changes"@,
                                        expr: ignored_changes(),
                                    },
                                ),
                            ],
                        },
                    },
                ),
            ],
        },
    }
}

/// The document that is printed for a connector: its resource block.
pub open spec fn document(options: TerraformConfigOptionsView) -> BodyView {
    BodyView { structures: seq![StructureView::Block(resource_block(options))] }
}

/// What printing a document gives: its text, or why there is none. A
/// document that holds an unsupported expression, or a number whose text is
/// not read as a number, is not handed to the printer. The printer is handed every bare name (the key of an
/// attribute, the identifier of a block, a bare key of an object, the name of
/// a variable, of a function and of an attribute in a reference) through
/// `hcl::Identifier::sanitized`: a name that is an identifier is printed as it
/// is, any other under the identifier that `hcl` makes of it. Labels and
/// quoted keys are printed as quoted strings.
pub open spec fn print_result(body: BodyView) -> Result<Seq<char>, ErrorView> {
    if !printable_body(body) {
        Err(ErrorView::Terraform("Document holds an expression that cannot be printed"@))
    } else {
        match hcl_text(body) {
            Ok(text) => Ok(text),
            Err(message) => Err(ErrorView::Terraform("Failed to serialize HCL: "@ + message)),
        }
    }
}

/// The message with which `hcl` turns down a text as an identifier.
pub open spec fn identifier_message(text: Seq<char>) -> Seq<char> {
    "invalid identifier `"@ + text + "`"@
}

/// What generation gives: the printed document, or why there is none. The
/// first sensitive setting that can be written neither quoted nor bare is
/// reported; then the two names that the document itself uses; then what
/// the printer says.
pub open spec fn generation_result(options: TerraformConfigOptionsView) -> Result<
    Seq<char>,
    ErrorView,
> {
    let names = options.connector.sensitive_configs;
    let at = first_position(names, is_unusable());
    if at < names.len() {
        Err(
            ErrorView::Terraform(
                "Invalid identifier '"@ + names[at] + "': "@ + identifier_message(names[at]),
            ),
        )
    } else if options.topics.len() > 0 && !hcl_identifier("join"@) {
        Err(
            ErrorView::Terraform(
                "Invalid function name 'join': "@ + identifier_message("join"@),
            ),
        )
    } else if !hcl_identifier("var"@) {
        Err(ErrorView::Terraform("Invalid variable name 'var': "@ + identifier_message("var"@)))
    } else {
        match hcl_text(document(options)) {
            Ok(text) => Ok(text),
            Err(message) => Err(ErrorView::Terraform("Failed to serialize HCL: "@ + message)),
        }
    }
}

/// The settings name the output format once, and it is the format that was
/// chosen, or the connector's default where none was: Parquet for the S3 sink,
/// Avro for every other connector. No setting occurs twice.
pub proof fn lemma_output_format_is_chosen_or_default(options: TerraformConfigOptionsView)
    ensures
        nonsensitive_object(options).distinct(),
        nonsensitive_object(options).has(object_key("output.data.format"@)),
        nonsensitive_object(options).value(object_key("output.data.format"@))
            == format_reference(
            format_or(options.output_data_format, default_output_format(options.connector.name)),
        ),
{
    let class = ExprView::Str(options.connector.connector_class);
    let name = ExprView::Str(options.connector_name);
    let o0 = ObjectView::empty();
    lemma_put_distinct(o0, object_key("connector.class"@), class);
    let o1 = o0.set("connector.class"@, class);
    lemma_put_distinct(o1, object_key("name"@), name);
    let o2 = o1.set("name"@, name);
    lemma_put_distinct(o2, object_key("kafka.auth.mode"@), ExprView::Str("SERVICE_ACCOUNT"@));
    let o3 = o2.set_text("kafka.auth.mode"@, "SERVICE_ACCOUNT"@);
    lemma_put_distinct(o3, object_key("kafka.deployment.type"@), ExprView::Str("DEDICATED"@));
    let o4 = o3.set_text("kafka.deployment.type"@, "DEDICATED"@);
    lemma_put_distinct(o4, object_key("topics"@), ExprView::Str("<REPLACE_WITH_TOPIC_NAME>"@));
    lemma_put_distinct(
        o4,
        object_key("topic.prefix"@),
        ExprView::Str("<REPLACE_WITH_TOPIC_PREFIX>"@),
    );
    let prefixed = o4.set_text("topic.prefix"@, "<REPLACE_WITH_TOPIC_PREFIX>"@);
    lemma_put_distinct(prefixed, object_key("topics"@), joined_topics(options.topics));
    lemma_put_distinct(o4, object_key("topics"@), joined_topics(options.topics));
    let o5 = with_topics(o4, options);
    assert(o5.distinct());
    lemma_connector_settings_distinct(
        o5,
        options.connector.name,
        options.input_data_format,
        options.output_data_format,
    );
    let o6 = connector_settings(
        o5,
        options.connector.name,
        options.input_data_format,
        options.output_data_format,
    );
    let format = format_reference(
        format_or(options.output_data_format, default_output_format(options.connector.name)),
    );
    let key = object_key("output.data.format"@);
    lemma_put_distinct(o6, key, format);
    lemma_put_value(o6, key, format);
    let o7 = o6.set("output.data.format"@, format);
    reveal_strlit("output.data.format");
    reveal_strlit("tasks.max");
    assert("output.data.format"@.len() == 18);
    assert("tasks.max"@.len() == 9);
    assert(object_key("tasks.max"@).text() == "tasks.max"@);
    assert(key.text() == "output.data.format"@);
    lemma_put_distinct(o7, object_key("tasks.max"@), ExprView::Str("1"@));
    lemma_put_other(o7, object_key("tasks.max"@), ExprView::Str("1"@), key);
}

/// Generation is a function of what the options hold: equal options give
/// the same text, byte for byte, or the same error.
pub proof fn lemma_generation_is_deterministic(
    first: TerraformConfigOptions,
    second: TerraformConfigOptions,
)
    requires
        first@ == second@,
    ensures
        generation_result(first@) == generation_result(second@),
{
}

/// Sets the key with text `key` to `value`.
fn set(object: &mut TfObject, key: &str, value: TfExpression)
    ensures
        final(object)@ == old(object)@.set(key@, value@),
        old(object)@.printable() && printable(value@) ==> final(object)@.printable(),
{
    proof {
        if old(object)@.printable() && printable(value@) {
            lemma_put_printable(old(object)@, object_key(key@), value@);
        }
    }
    object.insert(TerraformGenerator::make_object_key(key), value);
}

/// Sets the key with text `key` to the string `text`.
fn set_text(object: &mut TfObject, key: &str, text: &str)
    ensures
        final(object)@ == old(object)@.set_text(key@, text@),
        old(object)@.printable() ==> final(object)@.printable(),
{
    set(object, key, TfExpression::text(text));
}

/// `var.<attrs>` as an expression.
fn variable(attrs: Vec<String>) -> (r: TfExpression)
    ensures
        r@ == variable_reference(texts(attrs@)),
        printable(r@),
{
    let root = TfExpression::variable("var");
    assert(printable(root@));
    TfExpression::traversal(root, attrs)
}

/// A block without labels that holds `id = var.<attrs>`.
fn id_block(identifier: &str, attrs: Vec<String>) -> (r: TfStructure)
    ensures
        r@ == StructureView::Block(
            BlockView {
                identifier: identifier@,
                labels: Seq::empty(),
                body: id_body(texts(attrs@)),
            },
        ),
        printable_structure(r@),
{
    let structures = vec![TfStructure::attribute("id", variable(attrs))];
    proof {
        lemma_structure_views(structures@);
    }
    let body = TfBody::new(structures);
    assert(body@.structures =~= id_body(texts(attrs@)).structures);
    assert(printable_body(body@));
    let labels: Vec<String> = Vec::new();
    assert(texts(labels@) =~= Seq::empty());
    TfStructure::block(identifier, labels, body)
}

/// The block that tells Terraform which changes to overlook.
fn lifecycle_block() -> (r: TfStructure)
    ensures
        r@ == StructureView::Block(
            BlockView {
                identifier: "lifecycle"@,
                labels: Seq::empty(),
                body: BodyView {
                    structures: seq![
                        StructureView::Attribute(
                            AttributeView { key: "ignore_changes"@, expr: ignored_changes() },
                        ),
                    ],
                },
            },
        ),
        printable_structure(r@),
{
    let ignored = vec![
        TfExpression::text("config_nonsensitive[\"kafka.deployment.type\"]"),
        TfExpression::text("config_nonsensitive[\"kafka.max.partition.validation.disable\"]"),
        TfExpression::text("config_nonsensitive[\"kafka.max.partition.validation.enable\"]"),
        TfExpression::text("config_nonsensitive[\"kafka.max.partition.validation\"]"),
    ];
    proof {
        lemma_expression_views(ignored@);
    }
    let ignore = TfExpression::array(ignored);
    assert(ignore@->Array_0 =~= ignored_changes()->Array_0);
    assert(printable(ignore@)) by {
        assert forall|i: int| 0 <= i < ignore@->Array_0.len() implies printable(
            #[trigger] ignore@->Array_0[i],
        ) by {
            assert(ignore@->Array_0[i] is Str);
        }
        assert(printable_items(ignore@->Array_0));
    }
    let structures = vec![TfStructure::attribute("ignore_changes", ignore)];
    proof {
        lemma_structure_views(structures@);
    }
    let body = TfBody::new(structures);
    assert(body@.structures =~= seq![
        StructureView::Attribute(
            AttributeView { key: "ignore_changes"@, expr: ignored_changes() },
        ),
    ]);
    assert(printable_body(body@));
    let labels: Vec<String> = Vec::new();
    assert(texts(labels@) =~= Seq::empty());
    TfStructure::block("lifecycle", labels, body)
}

impl TerraformGenerator {
    /// Whether `hcl` takes a text for an identifier.
    pub fn is_identifier(text: &str) -> (r: bool)
        ensures
            r == hcl_identifier(text@),
    {
        identifier_error(text).is_none()
    }

    /// Prints a document. A bare name that is no identifier is printed as
    /// the identifier that `hcl` makes of it; `is_identifier` tells
    /// beforehand whether a name is one.
    pub fn print_document(body: &TfBody) -> (r: Result<String, ConnectUtilError>)
        ensures
            match r {
                Ok(text) => print_result(body@) == Ok::<Seq<char>, ErrorView>(text@),
                Err(err) => print_result(body@) == Err::<Seq<char>, ErrorView>(err@),
            },
    {
        if !body.is_printable() {
            return Err(
                ConnectUtilError::Terraform(
                    "Document holds an expression that cannot be printed".to_string(),
                ),
            );
        }
        match render_document(body) {
            Ok(text) => Ok(text),
            Err(message) => Err(
                ConnectUtilError::Terraform(concat("Failed to serialize HCL: ", message.as_str())),
            ),
        }
    }

    /// The document for a connector, as it is handed to the printer.
    pub fn build_document(options: &TerraformConfigOptions) -> (r: TfBody)
        ensures
            r@ == document(options@),
            printable_body(r@),
    {
        let sensitive = Self::sensitive_config_object(&options.connector.sensitive_configs);
        let nonsensitive = Self::nonsensitive_config_object(options);
        let status_path = vec!["status".to_string()];
        assert(texts(status_path@) =~= seq!["status"@]);
        let environment_path = vec!["environment_id".to_string()];
        assert(texts(environment_path@) =~= seq!["environment_id"@]);
        let cluster_path = vec!["kafka_cluster".to_string(), "id".to_string()];
        assert(texts(cluster_path@) =~= seq!["kafka_cluster"@, "id"@]);
        let structures = vec![
            TfStructure::attribute("status", variable(status_path)),
            id_block("environment", environment_path),
            id_block("kafka_cluster", cluster_path),
            TfStructure::attribute("config_sensitive", TfExpression::object(sensitive)),
            TfStructure::attribute("config_nonsensitive", TfExpression::object(nonsensitive)),
            lifecycle_block(),
        ];
        proof {
            lemma_structure_views(structures@);
        }
        let body = TfBody::new(structures);
        assert(body@.structures =~= resource_block(options@).body.structures);
        assert(printable_body(body@));
        let labels = vec![
            "confluent_connector".to_string(),
            replace_char(options.connector_name.as_str(), '-', "_"),
        ];
        assert(texts(labels@) =~= resource_block(options@).labels);
        let top = vec![TfStructure::block("resource", labels, body)];
        proof {
            lemma_structure_views(top@);
        }
        let out = TfBody::new(top);
        assert(out@.structures =~= document(options@).structures);
        out
    }

    /// The placeholder object for the sensitive settings.
    pub fn sensitive_config_object(names: &Vec<String>) -> (r: TfObject)
        ensures
            r@ == sensitive_object(texts(names@)),
            r@.printable(),
    {
        let mut object = TfObject::new();
        let mut i: usize = 0;
        while i < names.len()
            invariant
                0 <= i <= names.len(),
                object@ == sensitive_object(texts(names@).subrange(0, i as int)),
                object@.printable(),
            decreases names.len() - i,
        {
            proof {
                let done = texts(names@).subrange(0, i + 1);
                assert(done.drop_last() =~= texts(names@).subrange(0, i as int));
                assert(done.last() == names@[i as int]@);
            }
            set_text(&mut object, names[i].as_str(), "<REPLACE_WITH_ACTUAL_VALUE>");
            i = i + 1;
        }
        assert(texts(names@).subrange(0, names.len() as int) =~= texts(names@));
        object
    }

    /// The object of the settings that are no secrets.
    pub fn nonsensitive_config_object(options: &TerraformConfigOptions) -> (r: TfObject)
        ensures
            r@ == nonsensitive_object(options@),
            r@.printable(),
    {
        let mut object = TfObject::new();
        set_text(&mut object, "connector.class", options.connector.connector_class.as_str());
        set_text(&mut object, "name", options.connector_name.as_str());
        set_text(&mut object, "kafka.auth.mode", "SERVICE_ACCOUNT");
        set_text(&mut object, "kafka.deployment.type", "DEDICATED");
        if options.topics.len() == 0 {
            if options.connector.connector_type == ConnectorType::Sink {
                set_text(&mut object, "topics", "<REPLACE_WITH_TOPIC_NAME>");
            } else {
                set_text(&mut object, "topic.prefix", "<REPLACE_WITH_TOPIC_PREFIX>");
            }
        } else {
            if Self::requires_topic_prefix(&options.connector) {
                set_text(&mut object, "topic.prefix", "<REPLACE_WITH_TOPIC_PREFIX>");
            }
            set(&mut object, "topics", Self::join_expression(&options.topics));
        }
        assert(object@ == with_topics(
            ObjectView::empty().set_text(
                "connector.class"@,
                options@.connector.connector_class,
            ).set_text("name"@, options@.connector_name).set_text(
                "kafka.auth.mode"@,
                "SERVICE_ACCOUNT"@,
            ).set_text("kafka.deployment.type"@, "DEDICATED"@),
            options@,
        ));
        let added = Self::add_connector_specific_config_to_object(
            &mut object,
            &options.connector,
            options,
        );
        let output_format = match options.output_data_format {
            Some(format) => format,
            None => Self::default_output_format(&options.connector),
        };
        set(&mut object, "output.data.format", Self::data_format_to_expression(&output_format));
        set_text(&mut object, "tasks.max", "1");
        object
    }

    /// The format that a connector writes where none is chosen.
    pub fn default_output_format(connector: &ConnectorDefinition) -> (r: DataFormat)
        ensures
            r == default_output_format(connector@.name),
    {
        if text_eq(connector.name.as_str(), "S3_SINK") {
            DataFormat::Parquet
        } else {
            DataFormat::Avro
        }
    }

    /// Whether the connector asks for a `topic.prefix`.
    pub fn requires_topic_prefix(connector: &ConnectorDefinition) -> (r: bool)
        ensures
            r == wants_topic_prefix(connector@),
    {
        let mut i: usize = 0;
        while i < connector.required_configs.len()
            invariant
                0 <= i <= connector.required_configs.len(),
                forall|j: int|
                    0 <= j < i ==> (#[trigger] connector@.required_configs[j]).name
                        != "topic.prefix"@,
            decreases connector.required_configs.len() - i,
        {
            if text_eq(connector.required_configs[i].name.as_str(), "topic.prefix") {
                assert(connector@.required_configs[i as int].name == "topic.prefix"@);
                return true;
            }
            i = i + 1;
        }
        false
    }

    /// The topics as `join(",", [..])`.
    pub fn join_expression(topics: &Vec<String>) -> (r: TfExpression)
        ensures
            r@ == joined_topics(texts(topics@)),
            printable(r@),
    {
        let mut items: Vec<TfExpression> = Vec::new();
        let mut i: usize = 0;
        while i < topics.len()
            invariant
                0 <= i <= topics.len(),
                items@.len() == i,
                forall|j: int| 0 <= j < i ==> (#[trigger] items@[j])@ == ExprView::Str(topics@[j]@),
            decreases topics.len() - i,
        {
            items.push(TfExpression::text(topics[i].as_str()));
            i = i + 1;
        }
        proof {
            lemma_expression_views(items@);
        }
        let array = TfExpression::array(items);
        let ghost want = joined_topics(texts(topics@));
        assert(array@->Array_0 =~= want->args[1]->Array_0);
        assert(printable(array@)) by {
            assert forall|i: int| 0 <= i < array@->Array_0.len() implies printable(
                #[trigger] array@->Array_0[i],
            ) by {
                assert(array@->Array_0[i] is Str);
            }
            assert(printable_items(array@->Array_0));
        }
        let args = vec![TfExpression::text(","), array];
        proof {
            lemma_expression_views(args@);
        }
        let call = TfExpression::call("join", args);
        assert(call@->args =~= want->args);
        assert(printable(call@)) by {
            assert(printable(call@->args[0]));
            assert(printable(call@->args[1]));
            assert(printable_items(call@->args));
        }
        call
    }

    /// A format as a reference into the `schema_formats` table.
    pub fn data_format_to_expression(format: &DataFormat) -> (r: TfExpression)
        ensures
            r@ == format_reference(*format),
            printable(r@),
    {
        let attrs = vec!["schema_formats".to_string(), String::from_str(format.table_key())];
        assert(texts(attrs@) =~= seq!["schema_formats"@, table_entry(*format)]);
        let root = TfExpression::variable("local");
        assert(printable(root@));
        TfExpression::traversal(root, attrs)
    }

    /// The key with text `s`, quoted where the text holds a `.`.
    pub fn make_object_key(s: &str) -> (r: TfKey)
        ensures
            r@ == object_key(s@),
    {
        if contains_char(s, '.') {
            TfKey::Quoted(String::from_str(s))
        } else {
            TfKey::Identifier(String::from_str(s))
        }
    }

    /// Adds the settings that a connector of this name starts from. A name
    /// that the generator does not know adds nothing, and is no error.
    pub fn add_connector_specific_config_to_object(
        config_obj: &mut TfObject,
        connector_def: &ConnectorDefinition,
        options: &TerraformConfigOptions,
    ) -> (r: Result<(), ConnectUtilError>)
        ensures
            r is Ok,
            final(config_obj)@ == connector_settings(
                old(config_obj)@,
                connector_def@.name,
                options@.input_data_format,
                options@.output_data_format,
            ),
            old(config_obj)@.printable() ==> final(config_obj)@.printable(),
    {
        let name = connector_def.name.as_str();
        if text_eq(name, "PostgresCdcSourceV2") {
            set_text(config_obj, "database.hostname", "<REPLACE_WITH_DATABASE_HOST>");
            set_text(config_obj, "database.port", "5432");
            set_text(config_obj, "database.user", "<REPLACE_WITH_DATABASE_USER>");
            set_text(config_obj, "database.dbname", "<REPLACE_WITH_DATABASE_NAME>");
            set_text(config_obj, "database.sslmode", "require");
            set_text(config_obj, "publication.name", "dbz_publication");
            set_text(config_obj, "publication.autocreate.mode", "filtered");
            set_text(config_obj, "snapshot.mode", "initial");
            set_text(config_obj, "tombstones.on.delete", "true");
            set_text(config_obj, "plugin.name", "pgoutput");
            set_text(config_obj, "slot.name", "dbz");
            set_text(config_obj, "poll.interval.ms", "1000");
            set_text(config_obj, "max.batch.size", "1000");
            set_text(config_obj, "event.processing.failure.handling.mode", "fail");
            set_text(config_obj, "heartbeat.interval.ms", "0");
            set_text(config_obj, "provide.transaction.metadata", "false");
            set_text(config_obj, "decimal.handling.mode", "precise");
            set_text(config_obj, "binary.handling.mode", "bytes");
            set_text(config_obj, "time.precision.mode", "adaptive");
            set_text(config_obj, "cleanup.policy", "delete");
            set_text(config_obj, "hstore.handling.mode", "json");
            set_text(config_obj, "interval.handling.mode", "numeric");
            set_text(config_obj, "schema.refresh.mode", "columns_diff");
            set_text(config_obj, "after.state.only", "false");
            set(config_obj, "output.key.format", Self::data_format_to_expression(&DataFormat::Avro));
        } else if text_eq(name, "MySqlCdcSourceV2") {
            set_text(config_obj, "database.server.name", "<REPLACE_WITH_SERVER_NAME>");
            set_text(config_obj, "database.ssl.mode", "preferred");
            set_text(config_obj, "snapshot.mode", "initial");
            set_text(config_obj, "binlog.buffer.size", "8192");
            set_text(config_obj, "max.batch.size", "2048");
            set_text(config_obj, "max.queue.size", "8192");
            set_text(config_obj, "poll.interval.ms", "1000");
            set_text(config_obj, "connect.timeout.ms", "30000");
            set_text(config_obj, "socket.timeout.ms", "30000");
            set_text(config_obj, "heartbeat.interval.ms", "0");
            set_text(config_obj, "provide.transaction.metadata", "false");
            set_text(config_obj, "decimal.handling.mode", "precise");
            set_text(config_obj, "bigint.unsigned.handling.mode", "long");
            set_text(config_obj, "binary.handling.mode", "bytes");
            set_text(config_obj, "time.precision.mode", "adaptive");
            set_text(config_obj, "cleanup.policy", "delete");
            set_text(config_obj, "schema.refresh.mode", "columns_diff");
            set_text(config_obj, "after.state.only", "false");
            set(config_obj, "output.key.format", Self::data_format_to_expression(&DataFormat::Avro));
        } else if text_eq(name, "S3_SINK") {
            set_text(config_obj, "s3.bucket.name", "<REPLACE_WITH_BUCKET_NAME>");
            set_text(config_obj, "s3.wan.mode", "false");
            let input_format = match options.input_data_format {
                Some(format) => format,
                None => DataFormat::Avro,
            };
            set(config_obj, "input.data.format", Self::data_format_to_expression(&input_format));
            let output_format = match options.output_data_format {
                Some(format) => format,
                None => DataFormat::Parquet,
            };
            set(config_obj, "output.data.format", Self::data_format_to_expression(&output_format));
            set_text(config_obj, "topics.dir", "<REPLACE_WITH_TOPICS_DIR>");
            set_text(config_obj, "path.format", "'effective_date'=YYYY-MM-dd");
            set_text(config_obj, "time.interval", "HOURLY");
            set_text(config_obj, "rotate.schedule.interval.ms", "3600000");
            set_text(config_obj, "rotate.interval.ms", "3600000");
            set_text(config_obj, "flush.size", "100000");
            set_text(config_obj, "compression.codec", "PARQUET - gzip");
            set_text(config_obj, "s3.compression.level", "6");
            set_text(config_obj, "s3.part.size", "5242880");
            set_text(config_obj, "kafka.max.partition.validation.disable", "false");
        } else if text_eq(name, "PostgreSQLSource") {
            set_text(config_obj, "connection.host", "<REPLACE_WITH_DB_HOST>");
            set_text(config_obj, "connection.port", "5432");
            set_text(config_obj, "connection.user", "<REPLACE_WITH_DB_USER>");
            set_text(config_obj, "db.name", "<REPLACE_WITH_DB_NAME>");
            set_text(config_obj, "ssl.mode", "prefer");
            set_text(config_obj, "table.whitelist", "<REPLACE_WITH_TABLE_LIST>");
            set_text(config_obj, "mode", "timestamp");
            set_text(config_obj, "poll.interval.ms", "5000");
            set_text(config_obj, "db.timezone", "UTC");
            set_text(config_obj, "table.types", "TABLE");
        } else if text_eq(name, "PostgresSink") {
            set_text(config_obj, "connection.host", "<REPLACE_WITH_DB_HOST>");
            set_text(config_obj, "connection.port", "5432");
            set_text(config_obj, "connection.user", "<REPLACE_WITH_DB_USER>");
            set_text(config_obj, "db.name", "<REPLACE_WITH_DB_NAME>");
            set_text(config_obj, "ssl.mode", "prefer");
            set_text(config_obj, "insert.mode", "UPSERT");
            set_text(config_obj, "table.name.format", "<REPLACE_WITH_TABLE_FORMAT>");
            set_text(config_obj, "table.types", "TABLE");
            set_text(config_obj, "db.timezone", "UTC");
            set_text(config_obj, "pk.mode", "record_value");
            set_text(config_obj, "pk.fields", "<REPLACE_WITH_PK_FIELDS>");
            set_text(config_obj, "auto.create", "false");
            set_text(config_obj, "auto.evolve", "false");
            set_text(config_obj, "batch.sizes", "5000");
            set_text(config_obj, "max.poll.records", "2500");
        } else if text_eq(name, "MySQLSource") {
            set_text(config_obj, "connection.host", "<REPLACE_WITH_DB_HOST>");
            set_text(config_obj, "connection.port", "3306");
            set_text(config_obj, "connection.user", "<REPLACE_WITH_DB_USER>");
            set_text(config_obj, "db.name", "<REPLACE_WITH_DB_NAME>");
            set_text(config_obj, "ssl.mode", "preferred");
            set_text(config_obj, "table.whitelist", "<REPLACE_WITH_TABLE_LIST>");
            set_text(config_obj, "mode", "timestamp");
            set_text(config_obj, "poll.interval.ms", "5000");
            set_text(config_obj, "db.timezone", "UTC");
            set_text(config_obj, "table.types", "TABLE");
        } else if text_eq(name, "MySQLSink") {
            set_text(config_obj, "connection.host", "<REPLACE_WITH_DB_HOST>");
            set_text(config_obj, "connection.port", "3306");
            set_text(config_obj, "connection.user", "<REPLACE_WITH_DB_USER>");
            set_text(config_obj, "db.name", "<REPLACE_WITH_DB_NAME>");
            set_text(config_obj, "ssl.mode", "preferred");
            set_text(config_obj, "insert.mode", "UPSERT");
            set_text(config_obj, "table.name.format", "<REPLACE_WITH_TABLE_FORMAT>");
            set_text(config_obj, "table.types", "TABLE");
            set_text(config_obj, "db.timezone", "UTC");
            set_text(config_obj, "pk.mode", "record_value");
            set_text(config_obj, "pk.fields", "<REPLACE_WITH_PK_FIELDS>");
            set_text(config_obj, "auto.create", "false");
            set_text(config_obj, "auto.evolve", "false");
            set_text(config_obj, "batch.sizes", "5000");
            set_text(config_obj, "max.poll.records", "2500");
        }
        Ok(())
    }

    /// Writes the resource declaration of a connector.
    pub fn generate_connector_config(&self, options: TerraformConfigOptions) -> (r: Result<
        String,
        ConnectUtilError,
    >)
        ensures
            match r {
                Ok(text) => generation_result(options@) == Ok::<Seq<char>, ErrorView>(text@),
                Err(err) => generation_result(options@) == Err::<Seq<char>, ErrorView>(err@),
            },
    {
        let names = &options.connector.sensitive_configs;
        let mut i: usize = 0;
        while i < names.len()
            invariant
                0 <= i <= names.len(),
                names == &options.connector.sensitive_configs,
                forall|j: int| 0 <= j < i ==> !unusable_key(#[trigger] texts(names@)[j]),
            decreases names.len() - i,
        {
            let name = names[i].as_str();
            if !contains_char(name, '.') {
                match identifier_error(name) {
                    Some(message) => {
                        proof {
                            lemma_first_position_is(texts(names@), is_unusable(), i as int);
                        }
                        let head = concat3("Invalid identifier '", name, "': ");
                        return Err(
                            ConnectUtilError::Terraform(concat(head.as_str(), message.as_str())),
                        );
                    },
                    None => {},
                }
            }
            i = i + 1;
        }
        proof {
            lemma_first_position_is(texts(names@), is_unusable(), names.len() as int);
        }
        if options.topics.len() > 0 {
            match identifier_error("join") {
                Some(message) => {
                    return Err(
                        ConnectUtilError::Terraform(
                            concat("Invalid function name 'join': ", message.as_str()),
                        ),
                    );
                },
                None => {},
            }
        }
        match identifier_error("var") {
            Some(message) => {
                return Err(
                    ConnectUtilError::Terraform(
                        concat("Invalid variable name 'var': ", message.as_str()),
                    ),
                );
            },
            None => {},
        }
        let body = Self::build_document(&options);
        Self::print_document(&body)
    }
}

} // verus!
