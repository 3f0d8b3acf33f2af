//! The sink connectors of the catalog: each entry as a value, and the
//! function that builds it.

use vstd::prelude::*;
use super::{config_field, field};
use crate::types::{ConnectorDefinition, ConnectorDefinitionView, ConnectorType};

verus! {

/// The catalog entry of the connector `AlloyDbSink`.
pub open spec fn alloydb_sink_entry() -> ConnectorDefinitionView {
    ConnectorDefinitionView {
        name: "AlloyDbSink"@,
        display_name: "AlloyDB Sink"@,
        connector_class: "AlloyDbSink"@,
        connector_type: ConnectorType::Sink,
        description: "Write data to Google AlloyDB for PostgreSQL"@,
        required_configs: seq![
            field("connection.host"@, "Database hostname"@, "string"@, true, None),
            field("connection.port"@, "Database port"@, "int"@, true, None),
            field("connection.user"@, "Database username"@, "string"@, true, None),
            field("db.name"@, "Database name"@, "string"@, true, None),
            field("topics"@, "Comma-separated list of topics to read from"@, "string"@, true, None),
        ],
        optional_configs: seq![
            field("connection.password"@, "Database password"@, "string"@, false, None),
            field(
                "ssl.mode"@,
                "SSL mode for database connection"@,
                "string"@,
                false,
                Some(seq!["disable"@, "prefer"@, "require"@, "verify-ca"@, "verify-full"@]),
            ),
            field(
                "input.data.format"@,
                "Format of the records in the topics"@,
                "string"@,
                false,
                Some(seq!["AVRO"@, "JSON"@, "JSON_SR"@, "PROTOBUF"@]),
            ),
            field(
                "insert.mode"@,
                "How rows are written"@,
                "string"@,
                false,
                Some(seq!["INSERT"@, "UPSERT"@]),
            ),
            field(
                "table.name.format"@,
                "Format of the destination table name"@,
                "string"@,
                false,
                None,
            ),
            field(
                "table.types"@,
                "Table types to write to"@,
                "string"@,
                false,
                Some(seq!["TABLE"@, "VIEW"@]),
            ),
            field("db.timezone"@, "Database timezone"@, "string"@, false, None),
            field(
                "pk.mode"@,
                "Where the primary key is taken from"@,
                "string"@,
                false,
                Some(seq!["kafka"@, "none"@, "record_key"@, "record_value"@]),
            ),
            field(
                "pk.fields"@,
                "Comma-separated list of primary key fields"@,
                "string"@,
                false,
                None,
            ),
            field(
                "auto.create"@,
                "Create missing tables"@,
                "boolean"@,
                false,
                Some(seq!["true"@, "false"@]),
            ),
            field(
                "auto.evolve"@,
                "Add missing columns"@,
                "boolean"@,
                false,
                Some(seq!["true"@, "false"@]),
            ),
            field("batch.sizes"@, "Maximum number of rows per batch"@, "int"@, false, None),
            field("max.poll.records"@, "Maximum number of records per poll"@, "int"@, false, None),
        ],
        sensitive_configs: seq!["connection.password"@],
    }
}

pub(crate) fn alloydb_sink() -> (r: ConnectorDefinition)
    ensures
        r@ == alloydb_sink_entry(),
{
    let r = ConnectorDefinition {
        name: "AlloyDbSink".to_string(),
        display_name: "AlloyDB Sink".to_string(),
        connector_class: "AlloyDbSink".to_string(),
        connector_type: ConnectorType::Sink,
        description: "Write data to Google AlloyDB for PostgreSQL".to_string(),
        required_configs: vec![
            config_field("connection.host", "Database hostname", "string", true, None),
            config_field("connection.port", "Database port", "int", true, None),
            config_field("connection.user", "Database username", "string", true, None),
            config_field("db.name", "Database name", "string", true, None),
            config_field(
                "topics",
                "Comma-separated list of topics to read from",
                "string",
                true,
                None,
            ),
        ],
        optional_configs: vec![
            config_field("connection.password", "Database password", "string", false, None),
            config_field(
                "ssl.mode",
                "SSL mode for database connection",
                "string",
                false,
                Some(vec![
                    "disable".to_string(),
                    "prefer".to_string(),
                    "require".to_string(),
                    "verify-ca".to_string(),
                    "verify-full".to_string(),
                ]),
            ),
            config_field(
                "input.data.format",
                "Format of the records in the topics",
                "string",
                false,
                Some(vec![
                    "AVRO".to_string(),
                    "JSON".to_string(),
                    "JSON_SR".to_string(),
                    "PROTOBUF".to_string(),
                ]),
            ),
            config_field(
                "insert.mode",
                "How rows are written",
                "string",
                false,
                Some(vec!["INSERT".to_string(), "UPSERT".to_string()]),
            ),
            config_field(
                "table.name.format",
                "Format of the destination table name",
                "string",
                false,
                None,
            ),
            config_field(
                "table.types",
                "Table types to write to",
                "string",
                false,
                Some(vec!["TABLE".to_string(), "VIEW".to_string()]),
            ),
            config_field("db.timezone", "Database timezone", "string", false, None),
            config_field(
                "pk.mode",
                "Where the primary key is taken from",
                "string",
                false,
                Some(vec![
                    "kafka".to_string(),
                    "none".to_string(),
                    "record_key".to_string(),
                    "record_value".to_string(),
                ]),
            ),
            config_field(
                "pk.fields",
                "Comma-separated list of primary key fields",
                "string",
                false,
                None,
            ),
            config_field(
                "auto.create",
                "Create missing tables",
                "boolean",
                false,
                Some(vec!["true".to_string(), "false".to_string()]),
            ),
            config_field(
                "auto.evolve",
                "Add missing columns",
                "boolean",
                false,
                Some(vec!["true".to_string(), "false".to_string()]),
            ),
            config_field("batch.sizes", "Maximum number of rows per batch", "int", false, None),
            config_field(
                "max.poll.records",
                "Maximum number of records per poll",
                "int",
                false,
                None,
            ),
        ],
        sensitive_configs: vec!["connection.password".to_string()],
    };
    assert(r@ =~~= alloydb_sink_entry());
    r
}

/// The catalog entry of the connector `S3_SINK`.
pub open spec fn amazon_s3_sink_entry() -> ConnectorDefinitionView {
    ConnectorDefinitionView {
        name: "S3_SINK"@,
        display_name: "Amazon S3 Sink"@,
        connector_class: "S3_SINK"@,
        connector_type: ConnectorType::Sink,
        description: "Write data to Amazon S3 buckets"@,
        required_configs: seq![
            field("s3.bucket.name"@, "S3 bucket name"@, "string"@, true, None),
            field("topics"@, "Comma-separated list of topics to read from"@, "string"@, true, None),
            field(
                "input.data.format"@,
                "Format of the records in the topics"@,
                "string"@,
                true,
                Some(seq!["AVRO"@, "JSON"@, "JSON_SR"@, "PROTOBUF"@]),
            ),
            field(
                "output.data.format"@,
                "Format of the objects that are written"@,
                "string"@,
                true,
                Some(seq!["AVRO"@, "JSON"@, "PARQUET"@]),
            ),
            field(
                "time.interval"@,
                "How objects are partitioned by time"@,
                "string"@,
                true,
                Some(seq!["HOURLY"@, "DAILY"@]),
            ),
        ],
        optional_configs: seq![
            field("aws.access.key.id"@, "AWS access key ID"@, "string"@, false, None),
            field("aws.secret.access.key"@, "AWS secret access key"@, "string"@, false, None),
            field(
                "s3.wan.mode"@,
                "Use S3 transfer acceleration"@,
                "boolean"@,
                false,
                Some(seq!["true"@, "false"@]),
            ),
            field("topics.dir"@, "Top-level directory for the objects"@, "string"@, false, None),
            field("path.format"@, "Format of the time-based directories"@, "string"@, false, None),
            field(
                "rotate.schedule.interval.ms"@,
                "Scheduled rotation interval in milliseconds"@,
                "long"@,
                false,
                None,
            ),
            field(
                "rotate.interval.ms"@,
                "Rotation interval in milliseconds"@,
                "long"@,
                false,
                None,
            ),
            field("flush.size"@, "Number of records per object"@, "int"@, false, None),
            field("compression.codec"@, "Compression of the objects"@, "string"@, false, None),
            field("s3.compression.level"@, "Compression level"@, "int"@, false, None),
            field(
                "s3.part.size"@,
                "Part size of multi-part uploads in bytes"@,
                "int"@,
                false,
                None,
            ),
        ],
        sensitive_configs: seq!["aws.access.key.id"@, "aws.secret.access.key"@],
    }
}

pub(crate) fn amazon_s3_sink() -> (r: ConnectorDefinition)
    ensures
        r@ == amazon_s3_sink_entry(),
{
    let r = ConnectorDefinition {
        name: "S3_SINK".to_string(),
        display_name: "Amazon S3 Sink".to_string(),
        connector_class: "S3_SINK".to_string(),
        connector_type: ConnectorType::Sink,
        description: "Write data to Amazon S3 buckets".to_string(),
        required_configs: vec![
            config_field("s3.bucket.name", "S3 bucket name", "string", true, None),
            config_field(
                "topics",
                "Comma-separated list of topics to read from",
                "string",
                true,
                None,
            ),
            config_field(
                "input.data.format",
                "Format of the records in the topics",
                "string",
                true,
                Some(vec![
                    "AVRO".to_string(),
                    "JSON".to_string(),
                    "JSON_SR".to_string(),
                    "PROTOBUF".to_string(),
                ]),
            ),
            config_field(
                "output.data.format",
                "Format of the objects that are written",
                "string",
                true,
                Some(vec!["AVRO".to_string(), "JSON".to_string(), "PARQUET".to_string()]),
            ),
            config_field(
                "time.interval",
                "How objects are partitioned by time",
                "string",
                true,
                Some(vec!["HOURLY".to_string(), "DAILY".to_string()]),
            ),
        ],
        optional_configs: vec![
            config_field("aws.access.key.id", "AWS access key ID", "string", false, None),
            config_field("aws.secret.access.key", "AWS secret access key", "string", false, None),
            config_field(
                "s3.wan.mode",
                "Use S3 transfer acceleration",
                "boolean",
                false,
                Some(vec!["true".to_string(), "false".to_string()]),
            ),
            config_field(
                "topics.dir",
                "Top-level directory for the objects",
                "string",
                false,
                None,
            ),
            config_field(
                "path.format",
                "Format of the time-based directories",
                "string",
                false,
                None,
            ),
            config_field(
                "rotate.schedule.interval.ms",
                "Scheduled rotation interval in milliseconds",
                "long",
                false,
                None,
            ),
            config_field(
                "rotate.interval.ms",
                "Rotation interval in milliseconds",
                "long",
                false,
                None,
            ),
            config_field("flush.size", "Number of records per object", "int", false, None),
            config_field("compression.codec", "Compression of the objects", "string", false, None),
            config_field("s3.compression.level", "Compression level", "int", false, None),
            config_field(
                "s3.part.size",
                "Part size of multi-part uploads in bytes",
                "int",
                false,
                None,
            ),
        ],
        sensitive_configs: vec!["aws.access.key.id".to_string(), "aws.secret.access.key".to_string()],
    };
    assert(r@ =~~= amazon_s3_sink_entry());
    r
}

/// The catalog entry of the connector `SnowflakeSink`.
pub open spec fn snowflake_sink_entry() -> ConnectorDefinitionView {
    ConnectorDefinitionView {
        name: "SnowflakeSink"@,
        display_name: "Snowflake Sink"@,
        connector_class: "SnowflakeSink"@,
        connector_type: ConnectorType::Sink,
        description: "Write data to Snowflake"@,
        required_configs: seq![
            field("snowflake.url.name"@, "Snowflake account URL"@, "string"@, true, None),
            field("snowflake.user.name"@, "Snowflake username"@, "string"@, true, None),
            field("snowflake.database.name"@, "Snowflake database"@, "string"@, true, None),
            field("snowflake.schema.name"@, "Snowflake schema"@, "string"@, true, None),
            field("topics"@, "Comma-separated list of topics to read from"@, "string"@, true, None),
        ],
        optional_configs: seq![
            field("snowflake.private.key"@, "Snowflake private key"@, "string"@, false, None),
            field(
                "snowflake.private.key.passphrase"@,
                "Passphrase of the private key"@,
                "string"@,
                false,
                None,
            ),
            field(
                "snowflake.topic2table.map"@,
                "Mapping from topics to tables"@,
                "string"@,
                false,
                None,
            ),
            field("snowflake.role.name"@, "Snowflake role"@, "string"@, false, None),
            field(
                "input.data.format"@,
                "Format of the records in the topics"@,
                "string"@,
                false,
                Some(seq!["AVRO"@, "JSON"@, "JSON_SR"@, "PROTOBUF"@]),
            ),
            field(
                "buffer.count.records"@,
                "Number of records that are buffered"@,
                "long"@,
                false,
                None,
            ),
            field("buffer.flush.time"@, "Seconds between buffer flushes"@, "long"@, false, None),
        ],
        sensitive_configs: seq!["snowflake.private.key"@, "snowflake.private.key.passphrase"@],
    }
}

pub(crate) fn snowflake_sink() -> (r: ConnectorDefinition)
    ensures
        r@ == snowflake_sink_entry(),
{
    let r = ConnectorDefinition {
        name: "SnowflakeSink".to_string(),
        display_name: "Snowflake Sink".to_string(),
        connector_class: "SnowflakeSink".to_string(),
        connector_type: ConnectorType::Sink,
        description: "Write data to Snowflake".to_string(),
        required_configs: vec![
            config_field("snowflake.url.name", "Snowflake account URL", "string", true, None),
            config_field("snowflake.user.name", "Snowflake username", "string", true, None),
            config_field("snowflake.database.name", "Snowflake database", "string", true, None),
            config_field("snowflake.schema.name", "Snowflake schema", "string", true, None),
            config_field(
                "topics",
                "Comma-separated list of topics to read from",
                "string",
                true,
                None,
            ),
        ],
        optional_configs: vec![
            config_field("snowflake.private.key", "Snowflake private key", "string", false, None),
            config_field(
                "snowflake.private.key.passphrase",
                "Passphrase of the private key",
                "string",
                false,
                None,
            ),
            config_field(
                "snowflake.topic2table.map",
                "Mapping from topics to tables",
                "string",
                false,
                None,
            ),
            config_field("snowflake.role.name", "Snowflake role", "string", false, None),
            config_field(
                "input.data.format",
                "Format of the records in the topics",
                "string",
                false,
                Some(vec![
                    "AVRO".to_string(),
                    "JSON".to_string(),
                    "JSON_SR".to_string(),
                    "PROTOBUF".to_string(),
                ]),
            ),
            config_field(
                "buffer.count.records",
                "Number of records that are buffered",
                "long",
                false,
                None,
            ),
            config_field(
                "buffer.flush.time",
                "Seconds between buffer flushes",
                "long",
                false,
                None,
            ),
        ],
        sensitive_configs: vec!["snowflake.private.key".to_string(), "snowflake.private.key.passphrase".to_string()],
    };
    assert(r@ =~~= snowflake_sink_entry());
    r
}

/// The catalog entry of the connector `PostgresSink`.
pub open spec fn postgresql_sink_entry() -> ConnectorDefinitionView {
    ConnectorDefinitionView {
        name: "PostgresSink"@,
        display_name: "PostgreSQL Sink"@,
        connector_class: "PostgresSink"@,
        connector_type: ConnectorType::Sink,
        description: "Write data to PostgreSQL databases"@,
        required_configs: seq![
            field("connection.host"@, "Database hostname"@, "string"@, true, None),
            field("connection.port"@, "Database port"@, "int"@, true, None),
            field("connection.user"@, "Database username"@, "string"@, true, None),
            field("db.name"@, "Database name"@, "string"@, true, None),
            field("topics"@, "Comma-separated list of topics to read from"@, "string"@, true, None),
        ],
        optional_configs: seq![
            field("connection.password"@, "Database password"@, "string"@, false, None),
            field(
                "ssl.mode"@,
                "SSL mode for database connection"@,
                "string"@,
                false,
                Some(seq!["disable"@, "prefer"@, "require"@, "verify-ca"@, "verify-full"@]),
            ),
            field(
                "input.data.format"@,
                "Format of the records in the topics"@,
                "string"@,
                false,
                Some(seq!["AVRO"@, "JSON"@, "JSON_SR"@, "PROTOBUF"@]),
            ),
            field(
                "insert.mode"@,
                "How rows are written"@,
                "string"@,
                false,
                Some(seq!["INSERT"@, "UPSERT"@]),
            ),
            field(
                "table.name.format"@,
                "Format of the destination table name"@,
                "string"@,
                false,
                None,
            ),
            field(
                "table.types"@,
                "Table types to write to"@,
                "string"@,
                false,
                Some(seq!["TABLE"@, "VIEW"@]),
            ),
            field("db.timezone"@, "Database timezone"@, "string"@, false, None),
            field(
                "pk.mode"@,
                "Where the primary key is taken from"@,
                "string"@,
                false,
                Some(seq!["kafka"@, "none"@, "record_key"@, "record_value"@]),
            ),
            field(
                "pk.fields"@,
                "Comma-separated list of primary key fields"@,
                "string"@,
                false,
                None,
            ),
            field(
                "auto.create"@,
                "Create missing tables"@,
                "boolean"@,
                false,
                Some(seq!["true"@, "false"@]),
            ),
            field(
                "auto.evolve"@,
                "Add missing columns"@,
                "boolean"@,
                false,
                Some(seq!["true"@, "false"@]),
            ),
            field("batch.sizes"@, "Maximum number of rows per batch"@, "int"@, false, None),
            field("max.poll.records"@, "Maximum number of records per poll"@, "int"@, false, None),
        ],
        sensitive_configs: seq!["connection.password"@],
    }
}

pub(crate) fn postgresql_sink() -> (r: ConnectorDefinition)
    ensures
        r@ == postgresql_sink_entry(),
{
    let r = ConnectorDefinition {
        name: "PostgresSink".to_string(),
        display_name: "PostgreSQL Sink".to_string(),
        connector_class: "PostgresSink".to_string(),
        connector_type: ConnectorType::Sink,
        description: "Write data to PostgreSQL databases".to_string(),
        required_configs: vec![
            config_field("connection.host", "Database hostname", "string", true, None),
            config_field("connection.port", "Database port", "int", true, None),
            config_field("connection.user", "Database username", "string", true, None),
            config_field("db.name", "Database name", "string", true, None),
            config_field(
                "topics",
                "Comma-separated list of topics to read from",
                "string",
                true,
                None,
            ),
        ],
        optional_configs: vec![
            config_field("connection.password", "Database password", "string", false, None),
            config_field(
                "ssl.mode",
                "SSL mode for database connection",
                "string",
                false,
                Some(vec![
                    "disable".to_string(),
                    "prefer".to_string(),
                    "require".to_string(),
                    "verify-ca".to_string(),
                    "verify-full".to_string(),
                ]),
            ),
            config_field(
                "input.data.format",
                "Format of the records in the topics",
                "string",
                false,
                Some(vec![
                    "AVRO".to_string(),
                    "JSON".to_string(),
                    "JSON_SR".to_string(),
                    "PROTOBUF".to_string(),
                ]),
            ),
            config_field(
                "insert.mode",
                "How rows are written",
                "string",
                false,
                Some(vec!["INSERT".to_string(), "UPSERT".to_string()]),
            ),
            config_field(
                "table.name.format",
                "Format of the destination table name",
                "string",
                false,
                None,
            ),
            config_field(
                "table.types",
                "Table types to write to",
                "string",
                false,
                Some(vec!["TABLE".to_string(), "VIEW".to_string()]),
            ),
            config_field("db.timezone", "Database timezone", "string", false, None),
            config_field(
                "pk.mode",
                "Where the primary key is taken from",
                "string",
                false,
                Some(vec![
                    "kafka".to_string(),
                    "none".to_string(),
                    "record_key".to_string(),
                    "record_value".to_string(),
                ]),
            ),
            config_field(
                "pk.fields",
                "Comma-separated list of primary key fields",
                "string",
                false,
                None,
            ),
            config_field(
                "auto.create",
                "Create missing tables",
                "boolean",
                false,
                Some(vec!["true".to_string(), "false".to_string()]),
            ),
            config_field(
                "auto.evolve",
                "Add missing columns",
                "boolean",
                false,
                Some(vec!["true".to_string(), "false".to_string()]),
            ),
            config_field("batch.sizes", "Maximum number of rows per batch", "int", false, None),
            config_field(
                "max.poll.records",
                "Maximum number of records per poll",
                "int",
                false,
                None,
            ),
        ],
        sensitive_configs: vec!["connection.password".to_string()],
    };
    assert(r@ =~~= postgresql_sink_entry());
    r
}

/// The catalog entry of the connector `MySQLSink`.
pub open spec fn mysql_sink_entry() -> ConnectorDefinitionView {
    ConnectorDefinitionView {
        name: "MySQLSink"@,
        display_name: "MySQL Sink"@,
        connector_class: "MySQLSink"@,
        connector_type: ConnectorType::Sink,
        description: "Write data to MySQL databases"@,
        required_configs: seq![
            field("connection.host"@, "Database hostname"@, "string"@, true, None),
            field("connection.port"@, "Database port"@, "int"@, true, None),
            field("connection.user"@, "Database username"@, "string"@, true, None),
            field("db.name"@, "Database name"@, "string"@, true, None),
            field("topics"@, "Comma-separated list of topics to read from"@, "string"@, true, None),
        ],
        optional_configs: seq![
            field("connection.password"@, "Database password"@, "string"@, false, None),
            field(
                "ssl.mode"@,
                "SSL mode for database connection"@,
                "string"@,
                false,
                Some(seq!["disabled"@, "preferred"@, "required"@, "verify-ca"@, "verify-full"@]),
            ),
            field(
                "input.data.format"@,
                "Format of the records in the topics"@,
                "string"@,
                false,
                Some(seq!["AVRO"@, "JSON"@, "JSON_SR"@, "PROTOBUF"@]),
            ),
            field(
                "insert.mode"@,
                "How rows are written"@,
                "string"@,
                false,
                Some(seq!["INSERT"@, "UPSERT"@]),
            ),
            field(
                "table.name.format"@,
                "Format of the destination table name"@,
                "string"@,
                false,
                None,
            ),
            field(
                "table.types"@,
                "Table types to write to"@,
                "string"@,
                false,
                Some(seq!["TABLE"@, "VIEW"@]),
            ),
            field("db.timezone"@, "Database timezone"@, "string"@, false, None),
            field(
                "pk.mode"@,
                "Where the primary key is taken from"@,
                "string"@,
                false,
                Some(seq!["kafka"@, "none"@, "record_key"@, "record_value"@]),
            ),
            field(
                "pk.fields"@,
                "Comma-separated list of primary key fields"@,
                "string"@,
                false,
                None,
            ),
            field(
                "auto.create"@,
                "Create missing tables"@,
                "boolean"@,
                false,
                Some(seq!["true"@, "false"@]),
            ),
            field(
                "auto.evolve"@,
                "Add missing columns"@,
                "boolean"@,
                false,
                Some(seq!["true"@, "false"@]),
            ),
            field("batch.sizes"@, "Maximum number of rows per batch"@, "int"@, false, None),
            field("max.poll.records"@, "Maximum number of records per poll"@, "int"@, false, None),
        ],
        sensitive_configs: seq!["connection.password"@],
    }
}

pub(crate) fn mysql_sink() -> (r: ConnectorDefinition)
    ensures
        r@ == mysql_sink_entry(),
{
    let r = ConnectorDefinition {
        name: "MySQLSink".to_string(),
        display_name: "MySQL Sink".to_string(),
        connector_class: "MySQLSink".to_string(),
        connector_type: ConnectorType::Sink,
        description: "Write data to MySQL databases".to_string(),
        required_configs: vec![
            config_field("connection.host", "Database hostname", "string", true, None),
            config_field("connection.port", "Database port", "int", true, None),
            config_field("connection.user", "Database username", "string", true, None),
            config_field("db.name", "Database name", "string", true, None),
            config_field(
                "topics",
                "Comma-separated list of topics to read from",
                "string",
                true,
                None,
            ),
        ],
        optional_configs: vec![
            config_field("connection.password", "Database password", "string", false, None),
            config_field(
                "ssl.mode",
                "SSL mode for database connection",
                "string",
                false,
                Some(vec![
                    "disabled".to_string(),
                    "preferred".to_string(),
                    "required".to_string(),
                    "verify-ca".to_string(),
                    "verify-full".to_string(),
                ]),
            ),
            config_field(
                "input.data.format",
                "Format of the records in the topics",
                "string",
                false,
                Some(vec![
                    "AVRO".to_string(),
                    "JSON".to_string(),
                    "JSON_SR".to_string(),
                    "PROTOBUF".to_string(),
                ]),
            ),
            config_field(
                "insert.mode",
                "How rows are written",
                "string",
                false,
                Some(vec!["INSERT".to_string(), "UPSERT".to_string()]),
            ),
            config_field(
                "table.name.format",
                "Format of the destination table name",
                "string",
                false,
                None,
            ),
            config_field(
                "table.types",
                "Table types to write to",
                "string",
                false,
                Some(vec!["TABLE".to_string(), "VIEW".to_string()]),
            ),
            config_field("db.timezone", "Database timezone", "string", false, None),
            config_field(
                "pk.mode",
                "Where the primary key is taken from",
                "string",
                false,
                Some(vec![
                    "kafka".to_string(),
                    "none".to_string(),
                    "record_key".to_string(),
                    "record_value".to_string(),
                ]),
            ),
            config_field(
                "pk.fields",
                "Comma-separated list of primary key fields",
                "string",
                false,
                None,
            ),
            config_field(
                "auto.create",
                "Create missing tables",
                "boolean",
                false,
                Some(vec!["true".to_string(), "false".to_string()]),
            ),
            config_field(
                "auto.evolve",
                "Add missing columns",
                "boolean",
                false,
                Some(vec!["true".to_string(), "false".to_string()]),
            ),
            config_field("batch.sizes", "Maximum number of rows per batch", "int", false, None),
            config_field(
                "max.poll.records",
                "Maximum number of records per poll",
                "int",
                false,
                None,
            ),
        ],
        sensitive_configs: vec!["connection.password".to_string()],
    };
    assert(r@ =~~= mysql_sink_entry());
    r
}

/// The catalog entry of the connector `MicrosoftSqlServerSink`.
pub open spec fn microsoft_sql_server_sink_entry() -> ConnectorDefinitionView {
    ConnectorDefinitionView {
        name: "MicrosoftSqlServerSink"@,
        display_name: "Microsoft SQL Server Sink"@,
        connector_class: "MicrosoftSqlServerSink"@,
        connector_type: ConnectorType::Sink,
        description: "Write data to Microsoft SQL Server databases"@,
        required_configs: seq![
            field("connection.host"@, "Database hostname"@, "string"@, true, None),
            field("connection.port"@, "Database port"@, "int"@, true, None),
            field("connection.user"@, "Database username"@, "string"@, true, None),
            field("db.name"@, "Database name"@, "string"@, true, None),
            field("topics"@, "Comma-separated list of topics to read from"@, "string"@, true, None),
        ],
        optional_configs: seq![
            field("connection.password"@, "Database password"@, "string"@, false, None),
            field(
                "ssl.mode"@,
                "SSL mode for database connection"@,
                "string"@,
                false,
                Some(seq!["disable"@, "prefer"@, "require"@, "verify-ca"@, "verify-full"@]),
            ),
            field(
                "input.data.format"@,
                "Format of the records in the topics"@,
                "string"@,
                false,
                Some(seq!["AVRO"@, "JSON"@, "JSON_SR"@, "PROTOBUF"@]),
            ),
            field(
                "insert.mode"@,
                "How rows are written"@,
                "string"@,
                false,
                Some(seq!["INSERT"@, "UPSERT"@]),
            ),
            field(
                "table.name.format"@,
                "Format of the destination table name"@,
                "string"@,
                false,
                None,
            ),
            field(
                "table.types"@,
                "Table types to write to"@,
                "string"@,
                false,
                Some(seq!["TABLE"@, "VIEW"@]),
            ),
            field("db.timezone"@, "Database timezone"@, "string"@, false, None),
            field(
                "pk.mode"@,
                "Where the primary key is taken from"@,
                "string"@,
                false,
                Some(seq!["kafka"@, "none"@, "record_key"@, "record_value"@]),
            ),
            field(
                "pk.fields"@,
                "Comma-separated list of primary key fields"@,
                "string"@,
                false,
                None,
            ),
            field(
                "auto.create"@,
                "Create missing tables"@,
                "boolean"@,
                false,
                Some(seq!["true"@, "false"@]),
            ),
            field(
                "auto.evolve"@,
                "Add missing columns"@,
                "boolean"@,
                false,
                Some(seq!["true"@, "false"@]),
            ),
            field("batch.sizes"@, "Maximum number of rows per batch"@, "int"@, false, None),
            field("max.poll.records"@, "Maximum number of records per poll"@, "int"@, false, None),
        ],
        sensitive_configs: seq!["connection.password"@],
    }
}

pub(crate) fn microsoft_sql_server_sink() -> (r: ConnectorDefinition)
    ensures
        r@ == microsoft_sql_server_sink_entry(),
{
    let r = ConnectorDefinition {
        name: "MicrosoftSqlServerSink".to_string(),
        display_name: "Microsoft SQL Server Sink".to_string(),
        connector_class: "MicrosoftSqlServerSink".to_string(),
        connector_type: ConnectorType::Sink,
        description: "Write data to Microsoft SQL Server databases".to_string(),
        required_configs: vec![
            config_field("connection.host", "Database hostname", "string", true, None),
            config_field("connection.port", "Database port", "int", true, None),
            config_field("connection.user", "Database username", "string", true, None),
            config_field("db.name", "Database name", "string", true, None),
            config_field(
                "topics",
                "Comma-separated list of topics to read from",
                "string",
                true,
                None,
            ),
        ],
        optional_configs: vec![
            config_field("connection.password", "Database password", "string", false, None),
            config_field(
                "ssl.mode",
                "SSL mode for database connection",
                "string",
                false,
                Some(vec![
                    "disable".to_string(),
                    "prefer".to_string(),
                    "require".to_string(),
                    "verify-ca".to_string(),
                    "verify-full".to_string(),
                ]),
            ),
            config_field(
                "input.data.format",
                "Format of the records in the topics",
                "string",
                false,
                Some(vec![
                    "AVRO".to_string(),
                    "JSON".to_string(),
                    "JSON_SR".to_string(),
                    "PROTOBUF".to_string(),
                ]),
            ),
            config_field(
                "insert.mode",
                "How rows are written",
                "string",
                false,
                Some(vec!["INSERT".to_string(), "UPSERT".to_string()]),
            ),
            config_field(
                "table.name.format",
                "Format of the destination table name",
                "string",
                false,
                None,
            ),
            config_field(
                "table.types",
                "Table types to write to",
                "string",
                false,
                Some(vec!["TABLE".to_string(), "VIEW".to_string()]),
            ),
            config_field("db.timezone", "Database timezone", "string", false, None),
            config_field(
                "pk.mode",
                "Where the primary key is taken from",
                "string",
                false,
                Some(vec![
                    "kafka".to_string(),
                    "none".to_string(),
                    "record_key".to_string(),
                    "record_value".to_string(),
                ]),
            ),
            config_field(
                "pk.fields",
                "Comma-separated list of primary key fields",
                "string",
                false,
                None,
            ),
            config_field(
                "auto.create",
                "Create missing tables",
                "boolean",
                false,
                Some(vec!["true".to_string(), "false".to_string()]),
            ),
            config_field(
                "auto.evolve",
                "Add missing columns",
                "boolean",
                false,
                Some(vec!["true".to_string(), "false".to_string()]),
            ),
            config_field("batch.sizes", "Maximum number of rows per batch", "int", false, None),
            config_field(
                "max.poll.records",
                "Maximum number of records per poll",
                "int",
                false,
                None,
            ),
        ],
        sensitive_configs: vec!["connection.password".to_string()],
    };
    assert(r@ =~~= microsoft_sql_server_sink_entry());
    r
}

/// The catalog entry of the connector `OracleDatabaseSink`.
pub open spec fn oracle_sink_entry() -> ConnectorDefinitionView {
    ConnectorDefinitionView {
        name: "OracleDatabaseSink"@,
        display_name: "Oracle Database Sink"@,
        connector_class: "OracleDatabaseSink"@,
        connector_type: ConnectorType::Sink,
        description: "Write data to Oracle databases"@,
        required_configs: seq![
            field("connection.host"@, "Database hostname"@, "string"@, true, None),
            field("connection.port"@, "Database port"@, "int"@, true, None),
            field("connection.user"@, "Database username"@, "string"@, true, None),
            field("db.name"@, "Database name"@, "string"@, true, None),
            field("topics"@, "Comma-separated list of topics to read from"@, "string"@, true, None),
        ],
        optional_configs: seq![
            field("connection.password"@, "Database password"@, "string"@, false, None),
            field(
                "ssl.mode"@,
                "SSL mode for database connection"@,
                "string"@,
                false,
                Some(seq!["disable"@, "prefer"@, "require"@, "verify-ca"@, "verify-full"@]),
            ),
            field(
                "input.data.format"@,
                "Format of the records in the topics"@,
                "string"@,
                false,
                Some(seq!["AVRO"@, "JSON"@, "JSON_SR"@, "PROTOBUF"@]),
            ),
            field(
                "insert.mode"@,
                "How rows are written"@,
                "string"@,
                false,
                Some(seq!["INSERT"@, "UPSERT"@]),
            ),
            field(
                "table.name.format"@,
                "Format of the destination table name"@,
                "string"@,
                false,
                None,
            ),
            field(
                "table.types"@,
                "Table types to write to"@,
                "string"@,
                false,
                Some(seq!["TABLE"@, "VIEW"@]),
            ),
            field("db.timezone"@, "Database timezone"@, "string"@, false, None),
            field(
                "pk.mode"@,
                "Where the primary key is taken from"@,
                "string"@,
                false,
                Some(seq!["kafka"@, "none"@, "record_key"@, "record_value"@]),
            ),
            field(
                "pk.fields"@,
                "Comma-separated list of primary key fields"@,
                "string"@,
                false,
                None,
            ),
            field(
                "auto.create"@,
                "Create missing tables"@,
                "boolean"@,
                false,
                Some(seq!["true"@, "false"@]),
            ),
            field(
                "auto.evolve"@,
                "Add missing columns"@,
                "boolean"@,
                false,
                Some(seq!["true"@, "false"@]),
            ),
            field("batch.sizes"@, "Maximum number of rows per batch"@, "int"@, false, None),
            field("max.poll.records"@, "Maximum number of records per poll"@, "int"@, false, None),
        ],
        sensitive_configs: seq!["connection.password"@],
    }
}

pub(crate) fn oracle_sink() -> (r: ConnectorDefinition)
    ensures
        r@ == oracle_sink_entry(),
{
    let r = ConnectorDefinition {
        name: "OracleDatabaseSink".to_string(),
        display_name: "Oracle Database Sink".to_string(),
        connector_class: "OracleDatabaseSink".to_string(),
        connector_type: ConnectorType::Sink,
        description: "Write data to Oracle databases".to_string(),
        required_configs: vec![
            config_field("connection.host", "Database hostname", "string", true, None),
            config_field("connection.port", "Database port", "int", true, None),
            config_field("connection.user", "Database username", "string", true, None),
            config_field("db.name", "Database name", "string", true, None),
            config_field(
                "topics",
                "Comma-separated list of topics to read from",
                "string",
                true,
                None,
            ),
        ],
        optional_configs: vec![
            config_field("connection.password", "Database password", "string", false, None),
            config_field(
                "ssl.mode",
                "SSL mode for database connection",
                "string",
                false,
                Some(vec![
                    "disable".to_string(),
                    "prefer".to_string(),
                    "require".to_string(),
                    "verify-ca".to_string(),
                    "verify-full".to_string(),
                ]),
            ),
            config_field(
                "input.data.format",
                "Format of the records in the topics",
                "string",
                false,
                Some(vec![
                    "AVRO".to_string(),
                    "JSON".to_string(),
                    "JSON_SR".to_string(),
                    "PROTOBUF".to_string(),
                ]),
            ),
            config_field(
                "insert.mode",
                "How rows are written",
                "string",
                false,
                Some(vec!["INSERT".to_string(), "UPSERT".to_string()]),
            ),
            config_field(
                "table.name.format",
                "Format of the destination table name",
                "string",
                false,
                None,
            ),
            config_field(
                "table.types",
                "Table types to write to",
                "string",
                false,
                Some(vec!["TABLE".to_string(), "VIEW".to_string()]),
            ),
            config_field("db.timezone", "Database timezone", "string", false, None),
            config_field(
                "pk.mode",
                "Where the primary key is taken from",
                "string",
                false,
                Some(vec![
                    "kafka".to_string(),
                    "none".to_string(),
                    "record_key".to_string(),
                    "record_value".to_string(),
                ]),
            ),
            config_field(
                "pk.fields",
                "Comma-separated list of primary key fields",
                "string",
                false,
                None,
            ),
            config_field(
                "auto.create",
                "Create missing tables",
                "boolean",
                false,
                Some(vec!["true".to_string(), "false".to_string()]),
            ),
            config_field(
                "auto.evolve",
                "Add missing columns",
                "boolean",
                false,
                Some(vec!["true".to_string(), "false".to_string()]),
            ),
            config_field("batch.sizes", "Maximum number of rows per batch", "int", false, None),
            config_field(
                "max.poll.records",
                "Maximum number of records per poll",
                "int",
                false,
                None,
            ),
        ],
        sensitive_configs: vec!["connection.password".to_string()],
    };
    assert(r@ =~~= oracle_sink_entry());
    r
}

/// The catalog entry of the connector `MongoDbAtlasSink`.
pub open spec fn mongodb_sink_entry() -> ConnectorDefinitionView {
    ConnectorDefinitionView {
        name: "MongoDbAtlasSink"@,
        display_name: "MongoDB Atlas Sink"@,
        connector_class: "MongoDbAtlasSink"@,
        connector_type: ConnectorType::Sink,
        description: "Write data to MongoDB Atlas"@,
        required_configs: seq![
            field("connection.host"@, "MongoDB Atlas hostname"@, "string"@, true, None),
            field("connection.user"@, "MongoDB username"@, "string"@, true, None),
            field("database"@, "MongoDB database"@, "string"@, true, None),
            field("topics"@, "Comma-separated list of topics to read from"@, "string"@, true, None),
        ],
        optional_configs: seq![
            field("connection.password"@, "MongoDB password"@, "string"@, false, None),
            field("collection"@, "MongoDB collection"@, "string"@, false, None),
            field(
                "input.data.format"@,
                "Format of the records in the topics"@,
                "string"@,
                false,
                Some(seq!["AVRO"@, "JSON"@, "JSON_SR"@, "PROTOBUF"@]),
            ),
            field(
                "write.strategy"@,
                "How documents are written"@,
                "string"@,
                false,
                Some(seq![
                    "DefaultWriteModelStrategy"@,
                    "ReplaceOneDefaultStrategy"@,
                    "UpdateOneTimestampsStrategy"@,
                ]),
            ),
            field(
                "doc.id.strategy"@,
                "Where the document id is taken from"@,
                "string"@,
                false,
                None,
            ),
            field("max.batch.size"@, "Maximum number of documents per batch"@, "int"@, false, None),
        ],
        sensitive_configs: seq!["connection.password"@],
    }
}

pub(crate) fn mongodb_sink() -> (r: ConnectorDefinition)
    ensures
        r@ == mongodb_sink_entry(),
{
    let r = ConnectorDefinition {
        name: "MongoDbAtlasSink".to_string(),
        display_name: "MongoDB Atlas Sink".to_string(),
        connector_class: "MongoDbAtlasSink".to_string(),
        connector_type: ConnectorType::Sink,
        description: "Write data to MongoDB Atlas".to_string(),
        required_configs: vec![
            config_field("connection.host", "MongoDB Atlas hostname", "string", true, None),
            config_field("connection.user", "MongoDB username", "string", true, None),
            config_field("database", "MongoDB database", "string", true, None),
            config_field(
                "topics",
                "Comma-separated list of topics to read from",
                "string",
                true,
                None,
            ),
        ],
        optional_configs: vec![
            config_field("connection.password", "MongoDB password", "string", false, None),
            config_field("collection", "MongoDB collection", "string", false, None),
            config_field(
                "input.data.format",
                "Format of the records in the topics",
                "string",
                false,
                Some(vec![
                    "AVRO".to_string(),
                    "JSON".to_string(),
                    "JSON_SR".to_string(),
                    "PROTOBUF".to_string(),
                ]),
            ),
            config_field(
                "write.strategy",
                "How documents are written",
                "string",
                false,
                Some(vec![
                    "DefaultWriteModelStrategy".to_string(),
                    "ReplaceOneDefaultStrategy".to_string(),
                    "UpdateOneTimestampsStrategy".to_string(),
                ]),
            ),
            config_field(
                "doc.id.strategy",
                "Where the document id is taken from",
                "string",
                false,
                None,
            ),
            config_field(
                "max.batch.size",
                "Maximum number of documents per batch",
                "int",
                false,
                None,
            ),
        ],
        sensitive_configs: vec!["connection.password".to_string()],
    };
    assert(r@ =~~= mongodb_sink_entry());
    r
}

/// The catalog entry of the connector `ElasticsearchSink`.
pub open spec fn elasticsearch_sink_entry() -> ConnectorDefinitionView {
    ConnectorDefinitionView {
        name: "ElasticsearchSink"@,
        display_name: "Elasticsearch Service Sink"@,
        connector_class: "ElasticsearchSink"@,
        connector_type: ConnectorType::Sink,
        description: "Write data to Elasticsearch"@,
        required_configs: seq![
            field("connection.url"@, "Elasticsearch URL"@, "string"@, true, None),
            field("connection.username"@, "Elasticsearch username"@, "string"@, true, None),
            field("topics"@, "Comma-separated list of topics to read from"@, "string"@, true, None),
        ],
        optional_configs: seq![
            field("connection.password"@, "Elasticsearch password"@, "string"@, false, None),
            field(
                "input.data.format"@,
                "Format of the records in the topics"@,
                "string"@,
                false,
                Some(seq!["AVRO"@, "JSON"@, "JSON_SR"@, "PROTOBUF"@]),
            ),
            field(
                "key.ignore"@,
                "Ignore the record key"@,
                "boolean"@,
                false,
                Some(seq!["true"@, "false"@]),
            ),
            field(
                "schema.ignore"@,
                "Ignore the record schema"@,
                "boolean"@,
                false,
                Some(seq!["true"@, "false"@]),
            ),
            field(
                "behavior.on.null.values"@,
                "What is done with records without a value"@,
                "string"@,
                false,
                Some(seq!["ignore"@, "delete"@, "fail"@]),
            ),
            field("batch.size"@, "Maximum number of records per batch"@, "int"@, false, None),
        ],
        sensitive_configs: seq!["connection.password"@],
    }
}

pub(crate) fn elasticsearch_sink() -> (r: ConnectorDefinition)
    ensures
        r@ == elasticsearch_sink_entry(),
{
    let r = ConnectorDefinition {
        name: "ElasticsearchSink".to_string(),
        display_name: "Elasticsearch Service Sink".to_string(),
        connector_class: "ElasticsearchSink".to_string(),
        connector_type: ConnectorType::Sink,
        description: "Write data to Elasticsearch".to_string(),
        required_configs: vec![
            config_field("connection.url", "Elasticsearch URL", "string", true, None),
            config_field("connection.username", "Elasticsearch username", "string", true, None),
            config_field(
                "topics",
                "Comma-separated list of topics to read from",
                "string",
                true,
                None,
            ),
        ],
        optional_configs: vec![
            config_field("connection.password", "Elasticsearch password", "string", false, None),
            config_field(
                "input.data.format",
                "Format of the records in the topics",
                "string",
                false,
                Some(vec![
                    "AVRO".to_string(),
                    "JSON".to_string(),
                    "JSON_SR".to_string(),
                    "PROTOBUF".to_string(),
                ]),
            ),
            config_field(
                "key.ignore",
                "Ignore the record key",
                "boolean",
                false,
                Some(vec!["true".to_string(), "false".to_string()]),
            ),
            config_field(
                "schema.ignore",
                "Ignore the record schema",
                "boolean",
                false,
                Some(vec!["true".to_string(), "false".to_string()]),
            ),
            config_field(
                "behavior.on.null.values",
                "What is done with records without a value",
                "string",
                false,
                Some(vec!["ignore".to_string(), "delete".to_string(), "fail".to_string()]),
            ),
            config_field("batch.size", "Maximum number of records per batch", "int", false, None),
        ],
        sensitive_configs: vec!["connection.password".to_string()],
    };
    assert(r@ =~~= elasticsearch_sink_entry());
    r
}

/// The catalog entry of the connector `BigQuerySink`.
pub open spec fn bigquery_sink_entry() -> ConnectorDefinitionView {
    ConnectorDefinitionView {
        name: "BigQuerySink"@,
        display_name: "Google BigQuery Sink"@,
        connector_class: "BigQuerySink"@,
        connector_type: ConnectorType::Sink,
        description: "Write data to Google BigQuery"@,
        required_configs: seq![
            field("project"@, "Google Cloud project"@, "string"@, true, None),
            field("datasets"@, "BigQuery dataset"@, "string"@, true, None),
            field("topics"@, "Comma-separated list of topics to read from"@, "string"@, true, None),
        ],
        optional_configs: seq![
            field("keyfile"@, "Google Cloud service account key"@, "string"@, false, None),
            field(
                "input.data.format"@,
                "Format of the records in the topics"@,
                "string"@,
                false,
                Some(seq!["AVRO"@, "JSON"@, "JSON_SR"@, "PROTOBUF"@]),
            ),
            field(
                "auto.create.tables"@,
                "Create missing tables"@,
                "boolean"@,
                false,
                Some(seq!["true"@, "false"@]),
            ),
            field(
                "auto.update.schemas"@,
                "Update table schemas"@,
                "boolean"@,
                false,
                Some(seq!["true"@, "false"@]),
            ),
            field(
                "sanitize.topics"@,
                "Sanitize topic names before they are used as table names"@,
                "boolean"@,
                false,
                Some(seq!["true"@, "false"@]),
            ),
            field(
                "partitioning.type"@,
                "How tables are partitioned"@,
                "string"@,
                false,
                Some(seq!["NONE"@, "INGESTION_TIME"@, "RECORD_TIME"@, "TIMESTAMP_COLUMN"@]),
            ),
        ],
        sensitive_configs: seq!["keyfile"@],
    }
}

pub(crate) fn bigquery_sink() -> (r: ConnectorDefinition)
    ensures
        r@ == bigquery_sink_entry(),
{
    let r = ConnectorDefinition {
        name: "BigQuerySink".to_string(),
        display_name: "Google BigQuery Sink".to_string(),
        connector_class: "BigQuerySink".to_string(),
        connector_type: ConnectorType::Sink,
        description: "Write data to Google BigQuery".to_string(),
        required_configs: vec![
            config_field("project", "Google Cloud project", "string", true, None),
            config_field("datasets", "BigQuery dataset", "string", true, None),
            config_field(
                "topics",
                "Comma-separated list of topics to read from",
                "string",
                true,
                None,
            ),
        ],
        optional_configs: vec![
            config_field("keyfile", "Google Cloud service account key", "string", false, None),
            config_field(
                "input.data.format",
                "Format of the records in the topics",
                "string",
                false,
                Some(vec![
                    "AVRO".to_string(),
                    "JSON".to_string(),
                    "JSON_SR".to_string(),
                    "PROTOBUF".to_string(),
                ]),
            ),
            config_field(
                "auto.create.tables",
                "Create missing tables",
                "boolean",
                false,
                Some(vec!["true".to_string(), "false".to_string()]),
            ),
            config_field(
                "auto.update.schemas",
                "Update table schemas",
                "boolean",
                false,
                Some(vec!["true".to_string(), "false".to_string()]),
            ),
            config_field(
                "sanitize.topics",
                "Sanitize topic names before they are used as table names",
                "boolean",
                false,
                Some(vec!["true".to_string(), "false".to_string()]),
            ),
            config_field(
                "partitioning.type",
                "How tables are partitioned",
                "string",
                false,
                Some(vec![
                    "NONE".to_string(),
                    "INGESTION_TIME".to_string(),
                    "RECORD_TIME".to_string(),
                    "TIMESTAMP_COLUMN".to_string(),
                ]),
            ),
        ],
        sensitive_configs: vec!["keyfile".to_string()],
    };
    assert(r@ =~~= bigquery_sink_entry());
    r
}

/// The catalog entry of the connector `RedshiftSink`.
pub open spec fn redshift_sink_entry() -> ConnectorDefinitionView {
    ConnectorDefinitionView {
        name: "RedshiftSink"@,
        display_name: "Amazon Redshift Sink"@,
        connector_class: "RedshiftSink"@,
        connector_type: ConnectorType::Sink,
        description: "Write data to Amazon Redshift"@,
        required_configs: seq![
            field("aws.redshift.domain"@, "Redshift cluster domain"@, "string"@, true, None),
            field("aws.redshift.port"@, "Redshift cluster port"@, "int"@, true, None),
            field("aws.redshift.user"@, "Redshift username"@, "string"@, true, None),
            field("aws.redshift.database"@, "Redshift database"@, "string"@, true, None),
            field("topics"@, "Comma-separated list of topics to read from"@, "string"@, true, None),
        ],
        optional_configs: seq![
            field("aws.redshift.password"@, "Redshift password"@, "string"@, false, None),
            field(
                "input.data.format"@,
                "Format of the records in the topics"@,
                "string"@,
                false,
                Some(seq!["AVRO"@, "JSON"@, "JSON_SR"@, "PROTOBUF"@]),
            ),
            field(
                "table.name.format"@,
                "Format of the destination table name"@,
                "string"@,
                false,
                None,
            ),
            field(
                "auto.create"@,
                "Create missing tables"@,
                "boolean"@,
                false,
                Some(seq!["true"@, "false"@]),
            ),
            field(
                "auto.evolve"@,
                "Add missing columns"@,
                "boolean"@,
                false,
                Some(seq!["true"@, "false"@]),
            ),
            field("batch.size"@, "Maximum number of rows per batch"@, "int"@, false, None),
        ],
        sensitive_configs: seq!["aws.redshift.password"@],
    }
}

pub(crate) fn redshift_sink() -> (r: ConnectorDefinition)
    ensures
        r@ == redshift_sink_entry(),
{
    let r = ConnectorDefinition {
        name: "RedshiftSink".to_string(),
        display_name: "Amazon Redshift Sink".to_string(),
        connector_class: "RedshiftSink".to_string(),
        connector_type: ConnectorType::Sink,
        description: "Write data to Amazon Redshift".to_string(),
        required_configs: vec![
            config_field("aws.redshift.domain", "Redshift cluster domain", "string", true, None),
            config_field("aws.redshift.port", "Redshift cluster port", "int", true, None),
            config_field("aws.redshift.user", "Redshift username", "string", true, None),
            config_field("aws.redshift.database", "Redshift database", "string", true, None),
            config_field(
                "topics",
                "Comma-separated list of topics to read from",
                "string",
                true,
                None,
            ),
        ],
        optional_configs: vec![
            config_field("aws.redshift.password", "Redshift password", "string", false, None),
            config_field(
                "input.data.format",
                "Format of the records in the topics",
                "string",
                false,
                Some(vec![
                    "AVRO".to_string(),
                    "JSON".to_string(),
                    "JSON_SR".to_string(),
                    "PROTOBUF".to_string(),
                ]),
            ),
            config_field(
                "table.name.format",
                "Format of the destination table name",
                "string",
                false,
                None,
            ),
            config_field(
                "auto.create",
                "Create missing tables",
                "boolean",
                false,
                Some(vec!["true".to_string(), "false".to_string()]),
            ),
            config_field(
                "auto.evolve",
                "Add missing columns",
                "boolean",
                false,
                Some(vec!["true".to_string(), "false".to_string()]),
            ),
            config_field("batch.size", "Maximum number of rows per batch", "int", false, None),
        ],
        sensitive_configs: vec!["aws.redshift.password".to_string()],
    };
    assert(r@ =~~= redshift_sink_entry());
    r
}

/// The catalog entry of the connector `DatabricksDeltaLakeSink`.
pub open spec fn databricks_sink_entry() -> ConnectorDefinitionView {
    ConnectorDefinitionView {
        name: "DatabricksDeltaLakeSink"@,
        display_name: "Databricks Delta Lake Sink"@,
        connector_class: "DatabricksDeltaLakeSink"@,
        connector_type: ConnectorType::Sink,
        description: "Write data to Databricks Delta Lake"@,
        required_configs: seq![
            field("delta.lake.host.name"@, "Databricks workspace hostname"@, "string"@, true, None),
            field("delta.lake.http.path"@, "HTTP path of the cluster"@, "string"@, true, None),
            field(
                "staging.bucket.name"@,
                "S3 bucket in which data is staged"@,
                "string"@,
                true,
                None,
            ),
            field("topics"@, "Comma-separated list of topics to read from"@, "string"@, true, None),
        ],
        optional_configs: seq![
            field("delta.lake.token"@, "Databricks access token"@, "string"@, false, None),
            field(
                "staging.s3.access.key.id"@,
                "AWS access key ID for the staging bucket"@,
                "string"@,
                false,
                None,
            ),
            field(
                "staging.s3.secret.access.key"@,
                "AWS secret access key for the staging bucket"@,
                "string"@,
                false,
                None,
            ),
            field(
                "input.data.format"@,
                "Format of the records in the topics"@,
                "string"@,
                false,
                Some(seq!["AVRO"@, "JSON"@, "JSON_SR"@, "PROTOBUF"@]),
            ),
            field(
                "delta.lake.table.auto.create"@,
                "Create missing tables"@,
                "boolean"@,
                false,
                Some(seq!["true"@, "false"@]),
            ),
            field("flush.interval.ms"@, "Milliseconds between commits"@, "long"@, false, None),
        ],
        sensitive_configs: seq!["delta.lake.token"@, "staging.s3.access.key.id"@, "staging.s3.secret.access.key"@],
    }
}

pub(crate) fn databricks_sink() -> (r: ConnectorDefinition)
    ensures
        r@ == databricks_sink_entry(),
{
    let r = ConnectorDefinition {
        name: "DatabricksDeltaLakeSink".to_string(),
        display_name: "Databricks Delta Lake Sink".to_string(),
        connector_class: "DatabricksDeltaLakeSink".to_string(),
        connector_type: ConnectorType::Sink,
        description: "Write data to Databricks Delta Lake".to_string(),
        required_configs: vec![
            config_field(
                "delta.lake.host.name",
                "Databricks workspace hostname",
                "string",
                true,
                None,
            ),
            config_field("delta.lake.http.path", "HTTP path of the cluster", "string", true, None),
            config_field(
                "staging.bucket.name",
                "S3 bucket in which data is staged",
                "string",
                true,
                None,
            ),
            config_field(
                "topics",
                "Comma-separated list of topics to read from",
                "string",
                true,
                None,
            ),
        ],
        optional_configs: vec![
            config_field("delta.lake.token", "Databricks access token", "string", false, None),
            config_field(
                "staging.s3.access.key.id",
                "AWS access key ID for the staging bucket",
                "string",
                false,
                None,
            ),
            config_field(
                "staging.s3.secret.access.key",
                "AWS secret access key for the staging bucket",
                "string",
                false,
                None,
            ),
            config_field(
                "input.data.format",
                "Format of the records in the topics",
                "string",
                false,
                Some(vec![
                    "AVRO".to_string(),
                    "JSON".to_string(),
                    "JSON_SR".to_string(),
                    "PROTOBUF".to_string(),
                ]),
            ),
            config_field(
                "delta.lake.table.auto.create",
                "Create missing tables",
                "boolean",
                false,
                Some(vec!["true".to_string(), "false".to_string()]),
            ),
            config_field("flush.interval.ms", "Milliseconds between commits", "long", false, None),
        ],
        sensitive_configs: vec![
            "delta.lake.token".to_string(),
            "staging.s3.access.key.id".to_string(),
            "staging.s3.secret.access.key".to_string(),
        ],
    };
    assert(r@ =~~= databricks_sink_entry());
    r
}

/// The catalog entry of the connector `JdbcSink`.
pub open spec fn jdbc_sink_entry() -> ConnectorDefinitionView {
    ConnectorDefinitionView {
        name: "JdbcSink"@,
        display_name: "JDBC Sink"@,
        connector_class: "JdbcSink"@,
        connector_type: ConnectorType::Sink,
        description: "Write data to a database over JDBC"@,
        required_configs: seq![
            field("connection.host"@, "Database hostname"@, "string"@, true, None),
            field("connection.port"@, "Database port"@, "int"@, true, None),
            field("connection.user"@, "Database username"@, "string"@, true, None),
            field("db.name"@, "Database name"@, "string"@, true, None),
            field("topics"@, "Comma-separated list of topics to read from"@, "string"@, true, None),
        ],
        optional_configs: seq![
            field("connection.password"@, "Database password"@, "string"@, false, None),
            field(
                "ssl.mode"@,
                "SSL mode for database connection"@,
                "string"@,
                false,
                Some(seq!["disable"@, "prefer"@, "require"@, "verify-ca"@, "verify-full"@]),
            ),
            field(
                "input.data.format"@,
                "Format of the records in the topics"@,
                "string"@,
                false,
                Some(seq!["AVRO"@, "JSON"@, "JSON_SR"@, "PROTOBUF"@]),
            ),
            field(
                "insert.mode"@,
                "How rows are written"@,
                "string"@,
                false,
                Some(seq!["INSERT"@, "UPSERT"@]),
            ),
            field(
                "table.name.format"@,
                "Format of the destination table name"@,
                "string"@,
                false,
                None,
            ),
            field(
                "table.types"@,
                "Table types to write to"@,
                "string"@,
                false,
                Some(seq!["TABLE"@, "VIEW"@]),
            ),
            field("db.timezone"@, "Database timezone"@, "string"@, false, None),
            field(
                "pk.mode"@,
                "Where the primary key is taken from"@,
                "string"@,
                false,
                Some(seq!["kafka"@, "none"@, "record_key"@, "record_value"@]),
            ),
            field(
                "pk.fields"@,
                "Comma-separated list of primary key fields"@,
                "string"@,
                false,
                None,
            ),
            field(
                "auto.create"@,
                "Create missing tables"@,
                "boolean"@,
                false,
                Some(seq!["true"@, "false"@]),
            ),
            field(
                "auto.evolve"@,
                "Add missing columns"@,
                "boolean"@,
                false,
                Some(seq!["true"@, "false"@]),
            ),
            field("batch.sizes"@, "Maximum number of rows per batch"@, "int"@, false, None),
            field("max.poll.records"@, "Maximum number of records per poll"@, "int"@, false, None),
        ],
        sensitive_configs: seq!["connection.password"@],
    }
}

pub(crate) fn jdbc_sink() -> (r: ConnectorDefinition)
    ensures
        r@ == jdbc_sink_entry(),
{
    let r = ConnectorDefinition {
        name: "JdbcSink".to_string(),
        display_name: "JDBC Sink".to_string(),
        connector_class: "JdbcSink".to_string(),
        connector_type: ConnectorType::Sink,
        description: "Write data to a database over JDBC".to_string(),
        required_configs: vec![
            config_field("connection.host", "Database hostname", "string", true, None),
            config_field("connection.port", "Database port", "int", true, None),
            config_field("connection.user", "Database username", "string", true, None),
            config_field("db.name", "Database name", "string", true, None),
            config_field(
                "topics",
                "Comma-separated list of topics to read from",
                "string",
                true,
                None,
            ),
        ],
        optional_configs: vec![
            config_field("connection.password", "Database password", "string", false, None),
            config_field(
                "ssl.mode",
                "SSL mode for database connection",
                "string",
                false,
                Some(vec![
                    "disable".to_string(),
                    "prefer".to_string(),
                    "require".to_string(),
                    "verify-ca".to_string(),
                    "verify-full".to_string(),
                ]),
            ),
            config_field(
                "input.data.format",
                "Format of the records in the topics",
                "string",
                false,
                Some(vec![
                    "AVRO".to_string(),
                    "JSON".to_string(),
                    "JSON_SR".to_string(),
                    "PROTOBUF".to_string(),
                ]),
            ),
            config_field(
                "insert.mode",
                "How rows are written",
                "string",
                false,
                Some(vec!["INSERT".to_string(), "UPSERT".to_string()]),
            ),
            config_field(
                "table.name.format",
                "Format of the destination table name",
                "string",
                false,
                None,
            ),
            config_field(
                "table.types",
                "Table types to write to",
                "string",
                false,
                Some(vec!["TABLE".to_string(), "VIEW".to_string()]),
            ),
            config_field("db.timezone", "Database timezone", "string", false, None),
            config_field(
                "pk.mode",
                "Where the primary key is taken from",
                "string",
                false,
                Some(vec![
                    "kafka".to_string(),
                    "none".to_string(),
                    "record_key".to_string(),
                    "record_value".to_string(),
                ]),
            ),
            config_field(
                "pk.fields",
                "Comma-separated list of primary key fields",
                "string",
                false,
                None,
            ),
            config_field(
                "auto.create",
                "Create missing tables",
                "boolean",
                false,
                Some(vec!["true".to_string(), "false".to_string()]),
            ),
            config_field(
                "auto.evolve",
                "Add missing columns",
                "boolean",
                false,
                Some(vec!["true".to_string(), "false".to_string()]),
            ),
            config_field("batch.sizes", "Maximum number of rows per batch", "int", false, None),
            config_field(
                "max.poll.records",
                "Maximum number of records per poll",
                "int",
                false,
                None,
            ),
        ],
        sensitive_configs: vec!["connection.password".to_string()],
    };
    assert(r@ =~~= jdbc_sink_entry());
    r
}

/// The catalog entry of the connector `SplunkSink`.
pub open spec fn splunk_sink_entry() -> ConnectorDefinitionView {
    ConnectorDefinitionView {
        name: "SplunkSink"@,
        display_name: "Splunk Sink"@,
        connector_class: "SplunkSink"@,
        connector_type: ConnectorType::Sink,
        description: "Write data to Splunk over the HTTP event collector"@,
        required_configs: seq![
            field("splunk.hec.uri"@, "URI of the HTTP event collector"@, "string"@, true, None),
            field("topics"@, "Comma-separated list of topics to read from"@, "string"@, true, None),
        ],
        optional_configs: seq![
            field(
                "splunk.hec.token"@,
                "Token of the HTTP event collector"@,
                "string"@,
                false,
                None,
            ),
            field(
                "input.data.format"@,
                "Format of the records in the topics"@,
                "string"@,
                false,
                Some(seq!["AVRO"@, "JSON"@, "JSON_SR"@, "PROTOBUF"@]),
            ),
            field("splunk.indexes"@, "Comma-separated list of indexes"@, "string"@, false, None),
            field(
                "splunk.sourcetypes"@,
                "Comma-separated list of source types"@,
                "string"@,
                false,
                None,
            ),
            field(
                "splunk.hec.ssl.validate.certs"@,
                "Validate the certificate of the collector"@,
                "boolean"@,
                false,
                Some(seq!["true"@, "false"@]),
            ),
            field(
                "splunk.hec.raw"@,
                "Send events to the raw endpoint"@,
                "boolean"@,
                false,
                Some(seq!["true"@, "false"@]),
            ),
        ],
        sensitive_configs: seq!["splunk.hec.token"@],
    }
}

pub(crate) fn splunk_sink() -> (r: ConnectorDefinition)
    ensures
        r@ == splunk_sink_entry(),
{
    let r = ConnectorDefinition {
        name: "SplunkSink".to_string(),
        display_name: "Splunk Sink".to_string(),
        connector_class: "SplunkSink".to_string(),
        connector_type: ConnectorType::Sink,
        description: "Write data to Splunk over the HTTP event collector".to_string(),
        required_configs: vec![
            config_field("splunk.hec.uri", "URI of the HTTP event collector", "string", true, None),
            config_field(
                "topics",
                "Comma-separated list of topics to read from",
                "string",
                true,
                None,
            ),
        ],
        optional_configs: vec![
            config_field(
                "splunk.hec.token",
                "Token of the HTTP event collector",
                "string",
                false,
                None,
            ),
            config_field(
                "input.data.format",
                "Format of the records in the topics",
                "string",
                false,
                Some(vec![
                    "AVRO".to_string(),
                    "JSON".to_string(),
                    "JSON_SR".to_string(),
                    "PROTOBUF".to_string(),
                ]),
            ),
            config_field(
                "splunk.indexes",
                "Comma-separated list of indexes",
                "string",
                false,
                None,
            ),
            config_field(
                "splunk.sourcetypes",
                "Comma-separated list of source types",
                "string",
                false,
                None,
            ),
            config_field(
                "splunk.hec.ssl.validate.certs",
                "Validate the certificate of the collector",
                "boolean",
                false,
                Some(vec!["true".to_string(), "false".to_string()]),
            ),
            config_field(
                "splunk.hec.raw",
                "Send events to the raw endpoint",
                "boolean",
                false,
                Some(vec!["true".to_string(), "false".to_string()]),
            ),
        ],
        sensitive_configs: vec!["splunk.hec.token".to_string()],
    };
    assert(r@ =~~= splunk_sink_entry());
    r
}

/// The catalog entry of the connector `ClickHouseSink`.
pub open spec fn clickhouse_sink_entry() -> ConnectorDefinitionView {
    ConnectorDefinitionView {
        name: "ClickHouseSink"@,
        display_name: "ClickHouse Sink"@,
        connector_class: "ClickHouseSink"@,
        connector_type: ConnectorType::Sink,
        description: "Write data to ClickHouse"@,
        required_configs: seq![
            field("hostname"@, "ClickHouse hostname"@, "string"@, true, None),
            field("port"@, "ClickHouse port"@, "int"@, true, None),
            field("username"@, "ClickHouse username"@, "string"@, true, None),
            field("database"@, "ClickHouse database"@, "string"@, true, None),
            field("topics"@, "Comma-separated list of topics to read from"@, "string"@, true, None),
        ],
        optional_configs: seq![
            field("password"@, "ClickHouse password"@, "string"@, false, None),
            field("ssl"@, "Connect over TLS"@, "boolean"@, false, Some(seq!["true"@, "false"@])),
            field(
                "input.data.format"@,
                "Format of the records in the topics"@,
                "string"@,
                false,
                Some(seq!["AVRO"@, "JSON"@, "JSON_SR"@, "PROTOBUF"@]),
            ),
            field(
                "exactlyOnce"@,
                "Write every record exactly once"@,
                "boolean"@,
                false,
                Some(seq!["true"@, "false"@]),
            ),
            field("topic2TableMap"@, "Mapping from topics to tables"@, "string"@, false, None),
        ],
        sensitive_configs: seq!["password"@],
    }
}

pub(crate) fn clickhouse_sink() -> (r: ConnectorDefinition)
    ensures
        r@ == clickhouse_sink_entry(),
{
    let r = ConnectorDefinition {
        name: "ClickHouseSink".to_string(),
        display_name: "ClickHouse Sink".to_string(),
        connector_class: "ClickHouseSink".to_string(),
        connector_type: ConnectorType::Sink,
        description: "Write data to ClickHouse".to_string(),
        required_configs: vec![
            config_field("hostname", "ClickHouse hostname", "string", true, None),
            config_field("port", "ClickHouse port", "int", true, None),
            config_field("username", "ClickHouse username", "string", true, None),
            config_field("database", "ClickHouse database", "string", true, None),
            config_field(
                "topics",
                "Comma-separated list of topics to read from",
                "string",
                true,
                None,
            ),
        ],
        optional_configs: vec![
            config_field("password", "ClickHouse password", "string", false, None),
            config_field(
                "ssl",
                "Connect over TLS",
                "boolean",
                false,
                Some(vec!["true".to_string(), "false".to_string()]),
            ),
            config_field(
                "input.data.format",
                "Format of the records in the topics",
                "string",
                false,
                Some(vec![
                    "AVRO".to_string(),
                    "JSON".to_string(),
                    "JSON_SR".to_string(),
                    "PROTOBUF".to_string(),
                ]),
            ),
            config_field(
                "exactlyOnce",
                "Write every record exactly once",
                "boolean",
                false,
                Some(vec!["true".to_string(), "false".to_string()]),
            ),
            config_field("topic2TableMap", "Mapping from topics to tables", "string", false, None),
        ],
        sensitive_configs: vec!["password".to_string()],
    };
    assert(r@ =~~= clickhouse_sink_entry());
    r
}

} // verus!
