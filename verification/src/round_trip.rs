//! What is generated can be read back: the document that the generator
//! builds for a connector declares exactly that connector.

use vstd::prelude::*;
use crate::app::{
    block_config, connector_configs, connector_resource, connectors_of, declared_connector,
    extracted, extracted_object, extracted_settings, is_attribute, is_block,
    is_connector_resource, misshapen_resource, parse_result, resource_violation, settings_in,
    structure_check, structure_result,
};
use crate::config_map::{
    distinct_keys, entries_extend, entries_map, lemma_entries_extend, lemma_entries_insert,
};
use crate::document::{
    BodyView, ExprView, KeyView, ObjectView, lemma_object_position, object_position,
};
use crate::error::ErrorView;
use crate::search::lemma_first_position_is;
use crate::trusted::hcl_document;
use crate::terraform::{
    connector_settings, default_output_format, document, format_or, format_reference, generation_result, joined_topics,
    mysql_cdc_source_v2_settings, mysql_sink_settings, mysql_source_settings,
    nonsensitive_object, object_key, postgres_cdc_source_v2_settings, postgres_sink_settings,
    postgresql_source_settings, resource_block, resource_name, s3_sink_settings, with_topics,
};
use crate::types::{DataFormat, TerraformConfigOptionsView};

verus! {

/// The object sets the key with text `key` to the string `value`, and has no
/// other key with that text.
pub open spec fn sets_once(o: ObjectView, key: Seq<char>, value: Seq<char>) -> bool {
    exists|at: int|
        0 <= at < o.entries.len() && #[trigger] o.entries[at] == (
            object_key(key),
            ExprView::Str(value),
        ) && forall|i: int|
            0 <= i < o.entries.len() && i != at ==> (#[trigger] o.entries[i]).0.text() != key
}

/// Setting another key leaves what was set once as it is.
proof fn lemma_set_keeps(
    o: ObjectView,
    other: Seq<char>,
    to: ExprView,
    key: Seq<char>,
    value: Seq<char>,
)
    requires
        sets_once(o, key, value),
        other != key,
    ensures
        sets_once(o.set(other, to), key, value),
{
    let after = o.set(other, to);
    let at = choose|at: int|
        0 <= at < o.entries.len() && #[trigger] o.entries[at] == (
            object_key(key),
            ExprView::Str(value),
        ) && forall|i: int|
            0 <= i < o.entries.len() && i != at ==> (#[trigger] o.entries[i]).0.text() != key;
    let put = object_position(o.entries, object_key(other));
    lemma_object_position(o.entries, object_key(other));
    assert(object_key(other).text() == other);
    assert(object_key(key).text() == key);
    assert(put != at);
    assert(after.entries[at] == o.entries[at]);
    assert forall|i: int| 0 <= i < after.entries.len() && i != at implies (
    #[trigger] after.entries[i]).0.text() != key by {
        if i < o.entries.len() && i != put {
            assert(after.entries[i] == o.entries[i]);
        }
    }
}

/// Setting a key that no entry has the text of sets it once.
proof fn lemma_set_adds(o: ObjectView, key: Seq<char>, value: Seq<char>)
    requires
        forall|i: int| 0 <= i < o.entries.len() ==> (#[trigger] o.entries[i]).0.text() != key,
    ensures
        sets_once(o.set_text(key, value), key, value),
{
    let after = o.set_text(key, value);
    let put = object_position(o.entries, object_key(key));
    lemma_object_position(o.entries, object_key(key));
    assert(object_key(key).text() == key);
    if put < o.entries.len() {
        assert(o.entries[put].0.text() == key);
    }
    let at = o.entries.len() as int;
    assert(after.entries[at] == (object_key(key), ExprView::Str(value)));
    assert forall|i: int| 0 <= i < after.entries.len() && i != at implies (
    #[trigger] after.entries[i]).0.text() != key by {
        assert(after.entries[i] == o.entries[i]);
    }
}

proof fn lemma_postgres_cdc_source_v2_settings_keep(
    o: ObjectView,
    key: Seq<char>,
    value: Seq<char>,
)
    requires
        sets_once(o, key, value),
        key == "connector.class"@ || key == "name"@,
    ensures
        sets_once(postgres_cdc_source_v2_settings(o), key, value),
{
    reveal_strlit("connector.class");
    assert("connector.class"@.len() == 15);
    reveal_strlit("name");
    assert("name"@.len() == 4);
    reveal_strlit("database.hostname");
    assert("database.hostname"@.len() == 17);
    reveal_strlit("database.port");
    assert("database.port"@.len() == 13);
    reveal_strlit("database.user");
    assert("database.user"@.len() == 13);
    reveal_strlit("database.dbname");
    assert("database.dbname"@.len() == 15);
    assert("database.dbname"@[0] == 'd');
    assert("connector.class"@[0] == 'c');
    reveal_strlit("database.sslmode");
    assert("database.sslmode"@.len() == 16);
    reveal_strlit("publication.name");
    assert("publication.name"@.len() == 16);
    reveal_strlit("publication.autocreate.mode");
    assert("publication.autocreate.mode"@.len() == 27);
    reveal_strlit("snapshot.mode");
    assert("snapshot.mode"@.len() == 13);
    reveal_strlit("tombstones.on.delete");
    assert("tombstones.on.delete"@.len() == 20);
    reveal_strlit("plugin.name");
    assert("plugin.name"@.len() == 11);
    reveal_strlit("slot.name");
    assert("slot.name"@.len() == 9);
    reveal_strlit("poll.interval.ms");
    assert("poll.interval.ms"@.len() == 16);
    reveal_strlit("max.batch.size");
    assert("max.batch.size"@.len() == 14);
    reveal_strlit("event.processing.failure.handling.mode");
    assert("event.processing.failure.handling.mode"@.len() == 38);
    reveal_strlit("heartbeat.interval.ms");
    assert("heartbeat.interval.ms"@.len() == 21);
    reveal_strlit("provide.transaction.metadata");
    assert("provide.transaction.metadata"@.len() == 28);
    reveal_strlit("decimal.handling.mode");
    assert("decimal.handling.mode"@.len() == 21);
    reveal_strlit("binary.handling.mode");
    assert("binary.handling.mode"@.len() == 20);
    reveal_strlit("time.precision.mode");
    assert("time.precision.mode"@.len() == 19);
    reveal_strlit("cleanup.policy");
    assert("cleanup.policy"@.len() == 14);
    reveal_strlit("hstore.handling.mode");
    assert("hstore.handling.mode"@.len() == 20);
    reveal_strlit("interval.handling.mode");
    assert("interval.handling.mode"@.len() == 22);
    reveal_strlit("schema.refresh.mode");
    assert("schema.refresh.mode"@.len() == 19);
    reveal_strlit("after.state.only");
    assert("after.state.only"@.len() == 16);
    reveal_strlit("output.key.format");
    assert("output.key.format"@.len() == 17);
    lemma_set_keeps(o, "database.hostname"@, ExprView::Str("<REPLACE_WITH_DATABASE_HOST>"@), key, value);
    let o1 = o.set("database.hostname"@, ExprView::Str("<REPLACE_WITH_DATABASE_HOST>"@));
    lemma_set_keeps(o1, "database.port"@, ExprView::Str("5432"@), key, value);
    let o2 = o1.set("database.port"@, ExprView::Str("5432"@));
    lemma_set_keeps(o2, "database.user"@, ExprView::Str("<REPLACE_WITH_DATABASE_USER>"@), key, value);
    let o3 = o2.set("database.user"@, ExprView::Str("<REPLACE_WITH_DATABASE_USER>"@));
    lemma_set_keeps(o3, "database.dbname"@, ExprView::Str("<REPLACE_WITH_DATABASE_NAME>"@), key, value);
    let o4 = o3.set("database.dbname"@, ExprView::Str("<REPLACE_WITH_DATABASE_NAME>"@));
    lemma_set_keeps(o4, "database.sslmode"@, ExprView::Str("require"@), key, value);
    let o5 = o4.set("database.sslmode"@, ExprView::Str("require"@));
    lemma_set_keeps(o5, "publication.name"@, ExprView::Str("dbz_publication"@), key, value);
    let o6 = o5.set("publication.name"@, ExprView::Str("dbz_publication"@));
    lemma_set_keeps(o6, "publication.autocreate.mode"@, ExprView::Str("filtered"@), key, value);
    let o7 = o6.set("publication.autocreate.mode"@, ExprView::Str("filtered"@));
    lemma_set_keeps(o7, "snapshot.mode"@, ExprView::Str("initial"@), key, value);
    let o8 = o7.set("snapshot.mode"@, ExprView::Str("initial"@));
    lemma_set_keeps(o8, "tombstones.on.delete"@, ExprView::Str("true"@), key, value);
    let o9 = o8.set("tombstones.on.delete"@, ExprView::Str("true"@));
    lemma_set_keeps(o9, "plugin.name"@, ExprView::Str("pgoutput"@), key, value);
    let o10 = o9.set("plugin.name"@, ExprView::Str("pgoutput"@));
    lemma_set_keeps(o10, "slot.name"@, ExprView::Str("dbz"@), key, value);
    let o11 = o10.set("slot.name"@, ExprView::Str("dbz"@));
    lemma_set_keeps(o11, "poll.interval.ms"@, ExprView::Str("1000"@), key, value);
    let o12 = o11.set("poll.interval.ms"@, ExprView::Str("1000"@));
    lemma_set_keeps(o12, "max.batch.size"@, ExprView::Str("1000"@), key, value);
    let o13 = o12.set("max.batch.size"@, ExprView::Str("1000"@));
    lemma_set_keeps(o13, "event.processing.failure.handling.mode"@, ExprView::Str("fail"@), key, value);
    let o14 = o13.set("event.processing.failure.handling.mode"@, ExprView::Str("fail"@));
    lemma_set_keeps(o14, "heartbeat.interval.ms"@, ExprView::Str("0"@), key, value);
    let o15 = o14.set("heartbeat.interval.ms"@, ExprView::Str("0"@));
    lemma_set_keeps(o15, "provide.transaction.metadata"@, ExprView::Str("false"@), key, value);
    let o16 = o15.set("provide.transaction.metadata"@, ExprView::Str("false"@));
    lemma_set_keeps(o16, "decimal.handling.mode"@, ExprView::Str("precise"@), key, value);
    let o17 = o16.set("decimal.handling.mode"@, ExprView::Str("precise"@));
    lemma_set_keeps(o17, "binary.handling.mode"@, ExprView::Str("bytes"@), key, value);
    let o18 = o17.set("binary.handling.mode"@, ExprView::Str("bytes"@));
    lemma_set_keeps(o18, "time.precision.mode"@, ExprView::Str("adaptive"@), key, value);
    let o19 = o18.set("time.precision.mode"@, ExprView::Str("adaptive"@));
    lemma_set_keeps(o19, "cleanup.policy"@, ExprView::Str("delete"@), key, value);
    let o20 = o19.set("cleanup.policy"@, ExprView::Str("delete"@));
    lemma_set_keeps(o20, "hstore.handling.mode"@, ExprView::Str("json"@), key, value);
    let o21 = o20.set("hstore.handling.mode"@, ExprView::Str("json"@));
    lemma_set_keeps(o21, "interval.handling.mode"@, ExprView::Str("numeric"@), key, value);
    let o22 = o21.set("interval.handling.mode"@, ExprView::Str("numeric"@));
    lemma_set_keeps(o22, "schema.refresh.mode"@, ExprView::Str("columns_diff"@), key, value);
    let o23 = o22.set("schema.refresh.mode"@, ExprView::Str("columns_diff"@));
    lemma_set_keeps(o23, "after.state.only"@, ExprView::Str("false"@), key, value);
    let o24 = o23.set("after.state.only"@, ExprView::Str("false"@));
    lemma_set_keeps(o24, "output.key.format"@, format_reference(DataFormat::Avro), key, value);
    let o25 = o24.set("output.key.format"@, format_reference(DataFormat::Avro));
}

proof fn lemma_mysql_cdc_source_v2_settings_keep(
    o: ObjectView,
    key: Seq<char>,
    value: Seq<char>,
)
    requires
        sets_once(o, key, value),
        key == "connector.class"@ || key == "name"@,
    ensures
        sets_once(mysql_cdc_source_v2_settings(o), key, value),
{
    reveal_strlit("connector.class");
    assert("connector.class"@.len() == 15);
    reveal_strlit("name");
    assert("name"@.len() == 4);
    reveal_strlit("database.server.name");
    assert("database.server.name"@.len() == 20);
    reveal_strlit("database.ssl.mode");
    assert("database.ssl.mode"@.len() == 17);
    reveal_strlit("snapshot.mode");
    assert("snapshot.mode"@.len() == 13);
    reveal_strlit("binlog.buffer.size");
    assert("binlog.buffer.size"@.len() == 18);
    reveal_strlit("max.batch.size");
    assert("max.batch.size"@.len() == 14);
    reveal_strlit("max.queue.size");
    assert("max.queue.size"@.len() == 14);
    reveal_strlit("poll.interval.ms");
    assert("poll.interval.ms"@.len() == 16);
    reveal_strlit("connect.timeout.ms");
    assert("connect.timeout.ms"@.len() == 18);
    reveal_strlit("socket.timeout.ms");
    assert("socket.timeout.ms"@.len() == 17);
    reveal_strlit("heartbeat.interval.ms");
    assert("heartbeat.interval.ms"@.len() == 21);
    reveal_strlit("provide.transaction.metadata");
    assert("provide.transaction.metadata"@.len() == 28);
    reveal_strlit("decimal.handling.mode");
    assert("decimal.handling.mode"@.len() == 21);
    reveal_strlit("bigint.unsigned.handling.mode");
    assert("bigint.unsigned.handling.mode"@.len() == 29);
    reveal_strlit("binary.handling.mode");
    assert("binary.handling.mode"@.len() == 20);
    reveal_strlit("time.precision.mode");
    assert("time.precision.mode"@.len() == 19);
    reveal_strlit("cleanup.policy");
    assert("cleanup.policy"@.len() == 14);
    reveal_strlit("schema.refresh.mode");
    assert("schema.refresh.mode"@.len() == 19);
    reveal_strlit("after.state.only");
    assert("after.state.only"@.len() == 16);
    reveal_strlit("output.key.format");
    assert("output.key.format"@.len() == 17);
    lemma_set_keeps(o, "database.server.name"@, ExprView::Str("<REPLACE_WITH_SERVER_NAME>"@), key, value);
    let o1 = o.set("database.server.name"@, ExprView::Str("<REPLACE_WITH_SERVER_NAME>"@));
    lemma_set_keeps(o1, "database.ssl.mode"@, ExprView::Str("preferred"@), key, value);
    let o2 = o1.set("database.ssl.mode"@, ExprView::Str("preferred"@));
    lemma_set_keeps(o2, "snapshot.mode"@, ExprView::Str("initial"@), key, value);
    let o3 = o2.set("snapshot.mode"@, ExprView::Str("initial"@));
    lemma_set_keeps(o3, "binlog.buffer.size"@, ExprView::Str("8192"@), key, value);
    let o4 = o3.set("binlog.buffer.size"@, ExprView::Str("8192"@));
    lemma_set_keeps(o4, "max.batch.size"@, ExprView::Str("2048"@), key, value);
    let o5 = o4.set("max.batch.size"@, ExprView::Str("2048"@));
    lemma_set_keeps(o5, "max.queue.size"@, ExprView::Str("8192"@), key, value);
    let o6 = o5.set("max.queue.size"@, ExprView::Str("8192"@));
    lemma_set_keeps(o6, "poll.interval.ms"@, ExprView::Str("1000"@), key, value);
    let o7 = o6.set("poll.interval.ms"@, ExprView::Str("1000"@));
    lemma_set_keeps(o7, "connect.timeout.ms"@, ExprView::Str("30000"@), key, value);
    let o8 = o7.set("connect.timeout.ms"@, ExprView::Str("30000"@));
    lemma_set_keeps(o8, "socket.timeout.ms"@, ExprView::Str("30000"@), key, value);
    let o9 = o8.set("socket.timeout.ms"@, ExprView::Str("30000"@));
    lemma_set_keeps(o9, "heartbeat.interval.ms"@, ExprView::Str("0"@), key, value);
    let o10 = o9.set("heartbeat.interval.ms"@, ExprView::Str("0"@));
    lemma_set_keeps(o10, "provide.transaction.metadata"@, ExprView::Str("false"@), key, value);
    let o11 = o10.set("provide.transaction.metadata"@, ExprView::Str("false"@));
    lemma_set_keeps(o11, "decimal.handling.mode"@, ExprView::Str("precise"@), key, value);
    let o12 = o11.set("decimal.handling.mode"@, ExprView::Str("precise"@));
    lemma_set_keeps(o12, "bigint.unsigned.handling.mode"@, ExprView::Str("long"@), key, value);
    let o13 = o12.set("bigint.unsigned.handling.mode"@, ExprView::Str("long"@));
    lemma_set_keeps(o13, "binary.handling.mode"@, ExprView::Str("bytes"@), key, value);
    let o14 = o13.set("binary.handling.mode"@, ExprView::Str("bytes"@));
    lemma_set_keeps(o14, "time.precision.mode"@, ExprView::Str("adaptive"@), key, value);
    let o15 = o14.set("time.precision.mode"@, ExprView::Str("adaptive"@));
    lemma_set_keeps(o15, "cleanup.policy"@, ExprView::Str("delete"@), key, value);
    let o16 = o15.set("cleanup.policy"@, ExprView::Str("delete"@));
    lemma_set_keeps(o16, "schema.refresh.mode"@, ExprView::Str("columns_diff"@), key, value);
    let o17 = o16.set("schema.refresh.mode"@, ExprView::Str("columns_diff"@));
    lemma_set_keeps(o17, "after.state.only"@, ExprView::Str("false"@), key, value);
    let o18 = o17.set("after.state.only"@, ExprView::Str("false"@));
    lemma_set_keeps(o18, "output.key.format"@, format_reference(DataFormat::Avro), key, value);
    let o19 = o18.set("output.key.format"@, format_reference(DataFormat::Avro));
}

proof fn lemma_s3_sink_settings_keep(
    o: ObjectView,
    input: Option<DataFormat>,
    output: Option<DataFormat>,
    key: Seq<char>,
    value: Seq<char>,
)
    requires
        sets_once(o, key, value),
        key == "connector.class"@ || key == "name"@,
    ensures
        sets_once(s3_sink_settings(o, input, output), key, value),
{
    reveal_strlit("connector.class");
    assert("connector.class"@.len() == 15);
    reveal_strlit("name");
    assert("name"@.len() == 4);
    reveal_strlit("s3.bucket.name");
    assert("s3.bucket.name"@.len() == 14);
    reveal_strlit("s3.wan.mode");
    assert("s3.wan.mode"@.len() == 11);
    reveal_strlit("input.data.format");
    assert("input.data.format"@.len() == 17);
    reveal_strlit("output.data.format");
    assert("output.data.format"@.len() == 18);
    reveal_strlit("topics.dir");
    assert("topics.dir"@.len() == 10);
    reveal_strlit("path.format");
    assert("path.format"@.len() == 11);
    reveal_strlit("time.interval");
    assert("time.interval"@.len() == 13);
    reveal_strlit("rotate.schedule.interval.ms");
    assert("rotate.schedule.interval.ms"@.len() == 27);
    reveal_strlit("rotate.interval.ms");
    assert("rotate.interval.ms"@.len() == 18);
    reveal_strlit("flush.size");
    assert("flush.size"@.len() == 10);
    reveal_strlit("compression.codec");
    assert("compression.codec"@.len() == 17);
    reveal_strlit("s3.compression.level");
    assert("s3.compression.level"@.len() == 20);
    reveal_strlit("s3.part.size");
    assert("s3.part.size"@.len() == 12);
    reveal_strlit("kafka.max.partition.validation.disable");
    assert("kafka.max.partition.validation.disable"@.len() == 38);
    lemma_set_keeps(o, "s3.bucket.name"@, ExprView::Str("<REPLACE_WITH_BUCKET_NAME>"@), key, value);
    let o1 = o.set("s3.bucket.name"@, ExprView::Str("<REPLACE_WITH_BUCKET_NAME>"@));
    lemma_set_keeps(o1, "s3.wan.mode"@, ExprView::Str("false"@), key, value);
    let o2 = o1.set("s3.wan.mode"@, ExprView::Str("false"@));
    lemma_set_keeps(o2, "input.data.format"@, format_reference(format_or(input, DataFormat::Avro)), key, value);
    let o3 = o2.set("input.data.format"@, format_reference(format_or(input, DataFormat::Avro)));
    lemma_set_keeps(o3, "output.data.format"@, format_reference(format_or(output, DataFormat::Parquet)), key, value);
    let o4 = o3.set("output.data.format"@, format_reference(format_or(output, DataFormat::Parquet)));
    lemma_set_keeps(o4, "topics.dir"@, ExprView::Str("<REPLACE_WITH_TOPICS_DIR>"@), key, value);
    let o5 = o4.set("topics.dir"@, ExprView::Str("<REPLACE_WITH_TOPICS_DIR>"@));
    lemma_set_keeps(o5, "path.format"@, ExprView::Str("'effective_date'=YYYY-MM-dd"@), key, value);
    let o6 = o5.set("path.format"@, ExprView::Str("'effective_date'=YYYY-MM-dd"@));
    lemma_set_keeps(o6, "time.interval"@, ExprView::Str("HOURLY"@), key, value);
    let o7 = o6.set("time.interval"@, ExprView::Str("HOURLY"@));
    lemma_set_keeps(o7, "rotate.schedule.interval.ms"@, ExprView::Str("3600000"@), key, value);
    let o8 = o7.set("rotate.schedule.interval.ms"@, ExprView::Str("3600000"@));
    lemma_set_keeps(o8, "rotate.interval.ms"@, ExprView::Str("3600000"@), key, value);
    let o9 = o8.set("rotate.interval.ms"@, ExprView::Str("3600000"@));
    lemma_set_keeps(o9, "flush.size"@, ExprView::Str("100000"@), key, value);
    let o10 = o9.set("flush.size"@, ExprView::Str("100000"@));
    lemma_set_keeps(o10, "compression.codec"@, ExprView::Str("PARQUET - gzip"@), key, value);
    let o11 = o10.set("compression.codec"@, ExprView::Str("PARQUET - gzip"@));
    lemma_set_keeps(o11, "s3.compression.level"@, ExprView::Str("6"@), key, value);
    let o12 = o11.set("s3.compression.level"@, ExprView::Str("6"@));
    lemma_set_keeps(o12, "s3.part.size"@, ExprView::Str("5242880"@), key, value);
    let o13 = o12.set("s3.part.size"@, ExprView::Str("5242880"@));
    lemma_set_keeps(o13, "kafka.max.partition.validation.disable"@, ExprView::Str("false"@), key, value);
    let o14 = o13.set("kafka.max.partition.validation.disable"@, ExprView::Str("false"@));
}

proof fn lemma_postgresql_source_settings_keep(
    o: ObjectView,
    key: Seq<char>,
    value: Seq<char>,
)
    requires
        sets_once(o, key, value),
        key == "connector.class"@ || key == "name"@,
    ensures
        sets_once(postgresql_source_settings(o), key, value),
{
    reveal_strlit("connector.class");
    assert("connector.class"@.len() == 15);
    reveal_strlit("name");
    assert("name"@.len() == 4);
    reveal_strlit("connection.host");
    assert("connection.host"@.len() == 15);
    assert("connection.host"@[7] == 'i');
    assert("connector.class"@[7] == 'o');
    reveal_strlit("connection.port");
    assert("connection.port"@.len() == 15);
    assert("connection.port"@[7] == 'i');
    assert("connector.class"@[7] == 'o');
    reveal_strlit("connection.user");
    assert("connection.user"@.len() == 15);
    assert("connection.user"@[7] == 'i');
    assert("connector.class"@[7] == 'o');
    reveal_strlit("db.name");
    assert("db.name"@.len() == 7);
    reveal_strlit("ssl.mode");
    assert("ssl.mode"@.len() == 8);
    reveal_strlit("table.whitelist");
    assert("table.whitelist"@.len() == 15);
    assert("table.whitelist"@[0] == 't');
    assert("connector.class"@[0] == 'c');
    reveal_strlit("mode");
    assert("mode"@.len() == 4);
    assert("mode"@[0] == 'm');
    assert("name"@[0] == 'n');
    reveal_strlit("poll.interval.ms");
    assert("poll.interval.ms"@.len() == 16);
    reveal_strlit("db.timezone");
    assert("db.timezone"@.len() == 11);
    reveal_strlit("table.types");
    assert("table.types"@.len() == 11);
    lemma_set_keeps(o, "connection.host"@, ExprView::Str("<REPLACE_WITH_DB_HOST>"@), key, value);
    let o1 = o.set("connection.host"@, ExprView::Str("<REPLACE_WITH_DB_HOST>"@));
    lemma_set_keeps(o1, "connection.port"@, ExprView::Str("5432"@), key, value);
    let o2 = o1.set("connection.port"@, ExprView::Str("5432"@));
    lemma_set_keeps(o2, "connection.user"@, ExprView::Str("<REPLACE_WITH_DB_USER>"@), key, value);
    let o3 = o2.set("connection.user"@, ExprView::Str("<REPLACE_WITH_DB_USER>"@));
    lemma_set_keeps(o3, "db.name"@, ExprView::Str("<REPLACE_WITH_DB_NAME>"@), key, value);
    let o4 = o3.set("db.name"@, ExprView::Str("<REPLACE_WITH_DB_NAME>"@));
    lemma_set_keeps(o4, "ssl.mode"@, ExprView::Str("prefer"@), key, value);
    let o5 = o4.set("ssl.mode"@, ExprView::Str("prefer"@));
    lemma_set_keeps(o5, "table.whitelist"@, ExprView::Str("<REPLACE_WITH_TABLE_LIST>"@), key, value);
    let o6 = o5.set("table.whitelist"@, ExprView::Str("<REPLACE_WITH_TABLE_LIST>"@));
    lemma_set_keeps(o6, "mode"@, ExprView::Str("timestamp"@), key, value);
    let o7 = o6.set("mode"@, ExprView::Str("timestamp"@));
    lemma_set_keeps(o7, "poll.interval.ms"@, ExprView::Str("5000"@), key, value);
    let o8 = o7.set("poll.interval.ms"@, ExprView::Str("5000"@));
    lemma_set_keeps(o8, "db.timezone"@, ExprView::Str("UTC"@), key, value);
    let o9 = o8.set("db.timezone"@, ExprView::Str("UTC"@));
    lemma_set_keeps(o9, "table.types"@, ExprView::Str("TABLE"@), key, value);
    let o10 = o9.set("table.types"@, ExprView::Str("TABLE"@));
}

proof fn lemma_postgres_sink_settings_keep(
    o: ObjectView,
    key: Seq<char>,
    value: Seq<char>,
)
    requires
        sets_once(o, key, value),
        key == "connector.class"@ || key == "name"@,
    ensures
        sets_once(postgres_sink_settings(o), key, value),
{
    reveal_strlit("connector.class");
    assert("connector.class"@.len() == 15);
    reveal_strlit("name");
    assert("name"@.len() == 4);
    reveal_strlit("connection.host");
    assert("connection.host"@.len() == 15);
    assert("connection.host"@[7] == 'i');
    assert("connector.class"@[7] == 'o');
    reveal_strlit("connection.port");
    assert("connection.port"@.len() == 15);
    assert("connection.port"@[7] == 'i');
    assert("connector.class"@[7] == 'o');
    reveal_strlit("connection.user");
    assert("connection.user"@.len() == 15);
    assert("connection.user"@[7] == 'i');
    assert("connector.class"@[7] == 'o');
    reveal_strlit("db.name");
    assert("db.name"@.len() == 7);
    reveal_strlit("ssl.mode");
    assert("ssl.mode"@.len() == 8);
    reveal_strlit("insert.mode");
    assert("insert.mode"@.len() == 11);
    reveal_strlit("table.name.format");
    assert("table.name.format"@.len() == 17);
    reveal_strlit("table.types");
    assert("table.types"@.len() == 11);
    reveal_strlit("db.timezone");
    assert("db.timezone"@.len() == 11);
    reveal_strlit("pk.mode");
    assert("pk.mode"@.len() == 7);
    reveal_strlit("pk.fields");
    assert("pk.fields"@.len() == 9);
    reveal_strlit("auto.create");
    assert("auto.create"@.len() == 11);
    reveal_strlit("auto.evolve");
    assert("auto.evolve"@.len() == 11);
    reveal_strlit("batch.sizes");
    assert("batch.sizes"@.len() == 11);
    reveal_strlit("max.poll.records");
    assert("max.poll.records"@.len() == 16);
    lemma_set_keeps(o, "connection.host"@, ExprView::Str("<REPLACE_WITH_DB_HOST>"@), key, value);
    let o1 = o.set("connection.host"@, ExprView::Str("<REPLACE_WITH_DB_HOST>"@));
    lemma_set_keeps(o1, "connection.port"@, ExprView::Str("5432"@), key, value);
    let o2 = o1.set("connection.port"@, ExprView::Str("5432"@));
    lemma_set_keeps(o2, "connection.user"@, ExprView::Str("<REPLACE_WITH_DB_USER>"@), key, value);
    let o3 = o2.set("connection.user"@, ExprView::Str("<REPLACE_WITH_DB_USER>"@));
    lemma_set_keeps(o3, "db.name"@, ExprView::Str("<REPLACE_WITH_DB_NAME>"@), key, value);
    let o4 = o3.set("db.name"@, ExprView::Str("<REPLACE_WITH_DB_NAME>"@));
    lemma_set_keeps(o4, "ssl.mode"@, ExprView::Str("prefer"@), key, value);
    let o5 = o4.set("ssl.mode"@, ExprView::Str("prefer"@));
    lemma_set_keeps(o5, "insert.mode"@, ExprView::Str("UPSERT"@), key, value);
    let o6 = o5.set("insert.mode"@, ExprView::Str("UPSERT"@));
    lemma_set_keeps(o6, "table.name.format"@, ExprView::Str("<REPLACE_WITH_TABLE_FORMAT>"@), key, value);
    let o7 = o6.set("table.name.format"@, ExprView::Str("<REPLACE_WITH_TABLE_FORMAT>"@));
    lemma_set_keeps(o7, "table.types"@, ExprView::Str("TABLE"@), key, value);
    let o8 = o7.set("table.types"@, ExprView::Str("TABLE"@));
    lemma_set_keeps(o8, "db.timezone"@, ExprView::Str("UTC"@), key, value);
    let o9 = o8.set("db.timezone"@, ExprView::Str("UTC"@));
    lemma_set_keeps(o9, "pk.mode"@, ExprView::Str("record_value"@), key, value);
    let o10 = o9.set("pk.mode"@, ExprView::Str("record_value"@));
    lemma_set_keeps(o10, "pk.fields"@, ExprView::Str("<REPLACE_WITH_PK_FIELDS>"@), key, value);
    let o11 = o10.set("pk.fields"@, ExprView::Str("<REPLACE_WITH_PK_FIELDS>"@));
    lemma_set_keeps(o11, "auto.create"@, ExprView::Str("false"@), key, value);
    let o12 = o11.set("auto.create"@, ExprView::Str("false"@));
    lemma_set_keeps(o12, "auto.evolve"@, ExprView::Str("false"@), key, value);
    let o13 = o12.set("auto.evolve"@, ExprView::Str("false"@));
    lemma_set_keeps(o13, "batch.sizes"@, ExprView::Str("5000"@), key, value);
    let o14 = o13.set("batch.sizes"@, ExprView::Str("5000"@));
    lemma_set_keeps(o14, "max.poll.records"@, ExprView::Str("2500"@), key, value);
    let o15 = o14.set("max.poll.records"@, ExprView::Str("2500"@));
}

proof fn lemma_mysql_source_settings_keep(
    o: ObjectView,
    key: Seq<char>,
    value: Seq<char>,
)
    requires
        sets_once(o, key, value),
        key == "connector.class"@ || key == "name"@,
    ensures
        sets_once(mysql_source_settings(o), key, value),
{
    reveal_strlit("connector.class");
    assert("connector.class"@.len() == 15);
    reveal_strlit("name");
    assert("name"@.len() == 4);
    reveal_strlit("connection.host");
    assert("connection.host"@.len() == 15);
    assert("connection.host"@[7] == 'i');
    assert("connector.class"@[7] == 'o');
    reveal_strlit("connection.port");
    assert("connection.port"@.len() == 15);
    assert("connection.port"@[7] == 'i');
    assert("connector.class"@[7] == 'o');
    reveal_strlit("connection.user");
    assert("connection.user"@.len() == 15);
    assert("connection.user"@[7] == 'i');
    assert("connector.class"@[7] == 'o');
    reveal_strlit("db.name");
    assert("db.name"@.len() == 7);
    reveal_strlit("ssl.mode");
    assert("ssl.mode"@.len() == 8);
    reveal_strlit("table.whitelist");
    assert("table.whitelist"@.len() == 15);
    assert("table.whitelist"@[0] == 't');
    assert("connector.class"@[0] == 'c');
    reveal_strlit("mode");
    assert("mode"@.len() == 4);
    assert("mode"@[0] == 'm');
    assert("name"@[0] == 'n');
    reveal_strlit("poll.interval.ms");
    assert("poll.interval.ms"@.len() == 16);
    reveal_strlit("db.timezone");
    assert("db.timezone"@.len() == 11);
    reveal_strlit("table.types");
    assert("table.types"@.len() == 11);
    lemma_set_keeps(o, "connection.host"@, ExprView::Str("<REPLACE_WITH_DB_HOST>"@), key, value);
    let o1 = o.set("connection.host"@, ExprView::Str("<REPLACE_WITH_DB_HOST>"@));
    lemma_set_keeps(o1, "connection.port"@, ExprView::Str("3306"@), key, value);
    let o2 = o1.set("connection.port"@, ExprView::Str("3306"@));
    lemma_set_keeps(o2, "connection.user"@, ExprView::Str("<REPLACE_WITH_DB_USER>"@), key, value);
    let o3 = o2.set("connection.user"@, ExprView::Str("<REPLACE_WITH_DB_USER>"@));
    lemma_set_keeps(o3, "db.name"@, ExprView::Str("<REPLACE_WITH_DB_NAME>"@), key, value);
    let o4 = o3.set("db.name"@, ExprView::Str("<REPLACE_WITH_DB_NAME>"@));
    lemma_set_keeps(o4, "ssl.mode"@, ExprView::Str("preferred"@), key, value);
    let o5 = o4.set("ssl.mode"@, ExprView::Str("preferred"@));
    lemma_set_keeps(o5, "table.whitelist"@, ExprView::Str("<REPLACE_WITH_TABLE_LIST>"@), key, value);
    let o6 = o5.set("table.whitelist"@, ExprView::Str("<REPLACE_WITH_TABLE_LIST>"@));
    lemma_set_keeps(o6, "mode"@, ExprView::Str("timestamp"@), key, value);
    let o7 = o6.set("mode"@, ExprView::Str("timestamp"@));
    lemma_set_keeps(o7, "poll.interval.ms"@, ExprView::Str("5000"@), key, value);
    let o8 = o7.set("poll.interval.ms"@, ExprView::Str("5000"@));
    lemma_set_keeps(o8, "db.timezone"@, ExprView::Str("UTC"@), key, value);
    let o9 = o8.set("db.timezone"@, ExprView::Str("UTC"@));
    lemma_set_keeps(o9, "table.types"@, ExprView::Str("TABLE"@), key, value);
    let o10 = o9.set("table.types"@, ExprView::Str("TABLE"@));
}

proof fn lemma_mysql_sink_settings_keep(
    o: ObjectView,
    key: Seq<char>,
    value: Seq<char>,
)
    requires
        sets_once(o, key, value),
        key == "connector.class"@ || key == "name"@,
    ensures
        sets_once(mysql_sink_settings(o), key, value),
{
    reveal_strlit("connector.class");
    assert("connector.class"@.len() == 15);
    reveal_strlit("name");
    assert("name"@.len() == 4);
    reveal_strlit("connection.host");
    assert("connection.host"@.len() == 15);
    assert("connection.host"@[7] == 'i');
    assert("connector.class"@[7] == 'o');
    reveal_strlit("connection.port");
    assert("connection.port"@.len() == 15);
    assert("connection.port"@[7] == 'i');
    assert("connector.class"@[7] == 'o');
    reveal_strlit("connection.user");
    assert("connection.user"@.len() == 15);
    assert("connection.user"@[7] == 'i');
    assert("connector.class"@[7] == 'o');
    reveal_strlit("db.name");
    assert("db.name"@.len() == 7);
    reveal_strlit("ssl.mode");
    assert("ssl.mode"@.len() == 8);
    reveal_strlit("insert.mode");
    assert("insert.mode"@.len() == 11);
    reveal_strlit("table.name.format");
    assert("table.name.format"@.len() == 17);
    reveal_strlit("table.types");
    assert("table.types"@.len() == 11);
    reveal_strlit("db.timezone");
    assert("db.timezone"@.len() == 11);
    reveal_strlit("pk.mode");
    assert("pk.mode"@.len() == 7);
    reveal_strlit("pk.fields");
    assert("pk.fields"@.len() == 9);
    reveal_strlit("auto.create");
    assert("auto.create"@.len() == 11);
    reveal_strlit("auto.evolve");
    assert("auto.evolve"@.len() == 11);
    reveal_strlit("batch.sizes");
    assert("batch.sizes"@.len() == 11);
    reveal_strlit("max.poll.records");
    assert("max.poll.records"@.len() == 16);
    lemma_set_keeps(o, "connection.host"@, ExprView::Str("<REPLACE_WITH_DB_HOST>"@), key, value);
    let o1 = o.set("connection.host"@, ExprView::Str("<REPLACE_WITH_DB_HOST>"@));
    lemma_set_keeps(o1, "connection.port"@, ExprView::Str("3306"@), key, value);
    let o2 = o1.set("connection.port"@, ExprView::Str("3306"@));
    lemma_set_keeps(o2, "connection.user"@, ExprView::Str("<REPLACE_WITH_DB_USER>"@), key, value);
    let o3 = o2.set("connection.user"@, ExprView::Str("<REPLACE_WITH_DB_USER>"@));
    lemma_set_keeps(o3, "db.name"@, ExprView::Str("<REPLACE_WITH_DB_NAME>"@), key, value);
    let o4 = o3.set("db.name"@, ExprView::Str("<REPLACE_WITH_DB_NAME>"@));
    lemma_set_keeps(o4, "ssl.mode"@, ExprView::Str("preferred"@), key, value);
    let o5 = o4.set("ssl.mode"@, ExprView::Str("preferred"@));
    lemma_set_keeps(o5, "insert.mode"@, ExprView::Str("UPSERT"@), key, value);
    let o6 = o5.set("insert.mode"@, ExprView::Str("UPSERT"@));
    lemma_set_keeps(o6, "table.name.format"@, ExprView::Str("<REPLACE_WITH_TABLE_FORMAT>"@), key, value);
    let o7 = o6.set("table.name.format"@, ExprView::Str("<REPLACE_WITH_TABLE_FORMAT>"@));
    lemma_set_keeps(o7, "table.types"@, ExprView::Str("TABLE"@), key, value);
    let o8 = o7.set("table.types"@, ExprView::Str("TABLE"@));
    lemma_set_keeps(o8, "db.timezone"@, ExprView::Str("UTC"@), key, value);
    let o9 = o8.set("db.timezone"@, ExprView::Str("UTC"@));
    lemma_set_keeps(o9, "pk.mode"@, ExprView::Str("record_value"@), key, value);
    let o10 = o9.set("pk.mode"@, ExprView::Str("record_value"@));
    lemma_set_keeps(o10, "pk.fields"@, ExprView::Str("<REPLACE_WITH_PK_FIELDS>"@), key, value);
    let o11 = o10.set("pk.fields"@, ExprView::Str("<REPLACE_WITH_PK_FIELDS>"@));
    lemma_set_keeps(o11, "auto.create"@, ExprView::Str("false"@), key, value);
    let o12 = o11.set("auto.create"@, ExprView::Str("false"@));
    lemma_set_keeps(o12, "auto.evolve"@, ExprView::Str("false"@), key, value);
    let o13 = o12.set("auto.evolve"@, ExprView::Str("false"@));
    lemma_set_keeps(o13, "batch.sizes"@, ExprView::Str("5000"@), key, value);
    let o14 = o13.set("batch.sizes"@, ExprView::Str("5000"@));
    lemma_set_keeps(o14, "max.poll.records"@, ExprView::Str("2500"@), key, value);
    let o15 = o14.set("max.poll.records"@, ExprView::Str("2500"@));
}

proof fn lemma_connector_settings_keep(
    o: ObjectView,
    name: Seq<char>,
    input: Option<DataFormat>,
    output: Option<DataFormat>,
    key: Seq<char>,
    value: Seq<char>,
)
    requires
        sets_once(o, key, value),
        key == "connector.class"@ || key == "name"@,
    ensures
        sets_once(connector_settings(o, name, input, output), key, value),
{
    if name == "PostgresCdcSourceV2"@ {
        lemma_postgres_cdc_source_v2_settings_keep(o, key, value);
    } else if name == "MySqlCdcSourceV2"@ {
        lemma_mysql_cdc_source_v2_settings_keep(o, key, value);
    } else if name == "S3_SINK"@ {
        lemma_s3_sink_settings_keep(o, input, output, key, value);
    } else if name == "PostgreSQLSource"@ {
        lemma_postgresql_source_settings_keep(o, key, value);
    } else if name == "PostgresSink"@ {
        lemma_postgres_sink_settings_keep(o, key, value);
    } else if name == "MySQLSource"@ {
        lemma_mysql_source_settings_keep(o, key, value);
    } else if name == "MySQLSink"@ {
        lemma_mysql_sink_settings_keep(o, key, value);
    }
}

/// The object of the settings sets `connector.class` to the class of the
/// definition and `name` to the connector's name, each once.
proof fn lemma_nonsensitive_object_sets(options: TerraformConfigOptionsView)
    ensures
        sets_once(
            nonsensitive_object(options),
            "connector.class"@,
            options.connector.connector_class,
        ),
        sets_once(nonsensitive_object(options), "name"@, options.connector_name),
{
    let class = options.connector.connector_class;
    let name = options.connector_name;
    reveal_strlit("connector.class");
    assert("connector.class"@.len() == 15);
    reveal_strlit("name");
    assert("name"@.len() == 4);
    reveal_strlit("kafka.auth.mode");
    assert("kafka.auth.mode"@.len() == 15);
    assert("kafka.auth.mode"@[0] == 'k');
    assert("connector.class"@[0] == 'c');
    reveal_strlit("kafka.deployment.type");
    assert("kafka.deployment.type"@.len() == 21);
    reveal_strlit("topics");
    assert("topics"@.len() == 6);
    reveal_strlit("topic.prefix");
    assert("topic.prefix"@.len() == 12);
    reveal_strlit("output.data.format");
    assert("output.data.format"@.len() == 18);
    reveal_strlit("tasks.max");
    assert("tasks.max"@.len() == 9);
    let o1 = ObjectView::empty().set_text("connector.class"@, class);
    lemma_set_adds(ObjectView::empty(), "connector.class"@, class);
    assert(o1.entries =~= seq![(object_key("connector.class"@), ExprView::Str(class))]);
    assert(object_key("connector.class"@).text() == "connector.class"@);
    lemma_set_adds(o1, "name"@, name);
    lemma_set_keeps(o1, "name"@, ExprView::Str(name), "connector.class"@, class);
    let o2 = o1.set_text("name"@, name);
    lemma_set_chain_keeps(o2, options, "connector.class"@, class);
    lemma_set_chain_keeps(o2, options, "name"@, name);
}

/// What follows the first two settings leaves them as they are.
proof fn lemma_set_chain_keeps(
    o2: ObjectView,
    options: TerraformConfigOptionsView,
    key: Seq<char>,
    value: Seq<char>,
)
    requires
        sets_once(o2, key, value),
        key == "connector.class"@ || key == "name"@,
    ensures
        sets_once(
            connector_settings(
                with_topics(
                    o2.set_text("kafka.auth.mode"@, "SERVICE_ACCOUNT"@).set_text(
                        "kafka.deployment.type"@,
                        "DEDICATED"@,
                    ),
                    options,
                ),
                options.connector.name,
                options.input_data_format,
                options.output_data_format,
            ).set(
                "output.data.format"@,
                format_reference(
                    format_or(
                        options.output_data_format,
                        default_output_format(options.connector.name),
                    ),
                ),
            ).set_text("tasks.max"@, "1"@),
            key,
            value,
        ),
{
    reveal_strlit("connector.class");
    assert("connector.class"@.len() == 15);
    reveal_strlit("name");
    assert("name"@.len() == 4);
    reveal_strlit("kafka.auth.mode");
    assert("kafka.auth.mode"@.len() == 15);
    assert("kafka.auth.mode"@[0] == 'k');
    assert("connector.class"@[0] == 'c');
    reveal_strlit("kafka.deployment.type");
    assert("kafka.deployment.type"@.len() == 21);
    reveal_strlit("topics");
    assert("topics"@.len() == 6);
    reveal_strlit("topic.prefix");
    assert("topic.prefix"@.len() == 12);
    reveal_strlit("output.data.format");
    assert("output.data.format"@.len() == 18);
    reveal_strlit("tasks.max");
    assert("tasks.max"@.len() == 9);
    lemma_set_keeps(o2, "kafka.auth.mode"@, ExprView::Str("SERVICE_ACCOUNT"@), key, value);
    let o3 = o2.set_text("kafka.auth.mode"@, "SERVICE_ACCOUNT"@);
    lemma_set_keeps(o3, "kafka.deployment.type"@, ExprView::Str("DEDICATED"@), key, value);
    let o4 = o3.set_text("kafka.deployment.type"@, "DEDICATED"@);
    lemma_set_keeps(o4, "topics"@, ExprView::Str("<REPLACE_WITH_TOPIC_NAME>"@), key, value);
    lemma_set_keeps(o4, "topic.prefix"@, ExprView::Str("<REPLACE_WITH_TOPIC_PREFIX>"@), key, value);
    let prefixed = o4.set_text("topic.prefix"@, "<REPLACE_WITH_TOPIC_PREFIX>"@);
    lemma_set_keeps(prefixed, "topics"@, joined_topics(options.topics), key, value);
    lemma_set_keeps(o4, "topics"@, joined_topics(options.topics), key, value);
    let o5 = with_topics(o4, options);
    assert(sets_once(o5, key, value));
    lemma_connector_settings_keep(
        o5,
        options.connector.name,
        options.input_data_format,
        options.output_data_format,
        key,
        value,
    );
    let o6 = connector_settings(
        o5,
        options.connector.name,
        options.input_data_format,
        options.output_data_format,
    );
    let format = format_reference(
        format_or(options.output_data_format, default_output_format(options.connector.name)),
    );
    lemma_set_keeps(o6, "output.data.format"@, format, key, value);
    let o7 = o6.set("output.data.format"@, format);
    lemma_set_keeps(o7, "tasks.max"@, ExprView::Str("1"@), key, value);
}

/// The settings that are read from an object hold what the object sets once.
proof fn lemma_settings_hold(
    entries: Seq<(KeyView, ExprView)>,
    count: nat,
    key: Seq<char>,
    value: Seq<char>,
    at: int,
)
    requires
        0 <= at < entries.len(),
        entries[at] == (object_key(key), ExprView::Str(value)),
        forall|i: int| 0 <= i < entries.len() && i != at ==> (#[trigger] entries[i]).0.text() != key,
        count <= entries.len(),
    ensures
        distinct_keys(extracted_settings(entries, count)),
        count <= at ==> !entries_map(extracted_settings(entries, count)).dom().contains(key),
        count > at ==> entries_map(extracted_settings(entries, count)).dom().contains(key)
            && entries_map(extracted_settings(entries, count))[key] == value,
    decreases count,
{
    if count == 0 {
        assert(extracted_settings(entries, 0) =~= Seq::empty());
    } else {
        lemma_settings_hold(entries, (count - 1) as nat, key, value, at);
        let before = extracted_settings(entries, (count - 1) as nat);
        let last = entries[count - 1];
        assert(object_key(key).text() == key);
        match extracted(last.1) {
            Some(text) => {
                lemma_entries_insert(before, last.0.text(), text);
            },
            None => {},
        }
    }
}

/// Reading back the document that is generated for a connector gives
/// exactly one connector: under the label of the resource, with the class of
/// the connector's definition, and with the connector's own name, as it was
/// before it was made a label, under the setting `name`.
pub proof fn lemma_generated_document_reads_back(options: TerraformConfigOptionsView)
    ensures
        connectors_of(document(options)).len() == 1,
        connectors_of(document(options))[0].name == resource_name(options.connector_name),
        connectors_of(document(options))[0].connector_class
            == options.connector.connector_class,
        entries_map(connectors_of(document(options))[0].config).dom().contains("name"@),
        entries_map(connectors_of(document(options))[0].config)["name"@]
            == options.connector_name,
{
    let class = options.connector.connector_class;
    let block = resource_block(options);
    let parts = block.body.structures;
    let object = nonsensitive_object(options);
    lemma_nonsensitive_object_sets(options);
    let class_at = choose|at: int|
        0 <= at < object.entries.len() && #[trigger] object.entries[at] == (
            object_key("connector.class"@),
            ExprView::Str(class),
        ) && forall|i: int|
            0 <= i < object.entries.len() && i != at ==> (#[trigger] object.entries[i]).0.text()
                != "connector.class"@;
    let name_at = choose|at: int|
        0 <= at < object.entries.len() && #[trigger] object.entries[at] == (
            object_key("name"@),
            ExprView::Str(options.connector_name),
        ) && forall|i: int|
            0 <= i < object.entries.len() && i != at ==> (#[trigger] object.entries[i]).0.text()
                != "name"@;
    lemma_settings_hold(object.entries, object.entries.len(), "connector.class"@, class, class_at);
    lemma_settings_hold(
        object.entries,
        object.entries.len(),
        "name"@,
        options.connector_name,
        name_at,
    );
    let read = extracted_settings(object.entries, object.entries.len());
    reveal_strlit("config_nonsensitive");
    reveal_strlit("config_sensitive");
    reveal_strlit("status");
    assert("config_nonsensitive"@.len() == 19);
    assert("config_sensitive"@.len() == 16);
    assert("status"@.len() == 6);
    let key = "config_nonsensitive"@;
    let empty = Seq::<(Seq<char>, Seq<char>)>::empty();
    assert(parts.len() == 6);
    assert(settings_in(empty, parts, 0, key) == empty);
    assert(settings_in(empty, parts, 1, key) == empty);
    assert(settings_in(empty, parts, 2, key) == empty);
    assert(settings_in(empty, parts, 3, key) == empty);
    assert(settings_in(empty, parts, 4, key) == empty);
    assert(extracted_object(parts[4]->Attribute_0.expr) == Some(read));
    assert(settings_in(empty, parts, 5, key) == entries_extend(empty, read));
    assert(settings_in(empty, parts, 6, key) == entries_extend(empty, read));
    lemma_entries_extend(empty, read);
    assert(entries_map(empty).union_prefer_right(entries_map(read)) =~= entries_map(read));
    let declared = block_config(block.labels[1], block.body);
    assert(declared is Some);
    assert(declared->Some_0.connector_class == class);
    let top = document(options).structures;
    assert(is_connector_resource(top[0]));
    assert(declared_connector(top[0]) == declared);
    assert(connector_configs(top, 0) =~= Seq::empty());
    assert(connector_configs(top, 1) =~= seq![declared->Some_0]);
}

/// The document that is generated for a connector has the shape that the
/// check of a document's shape asks for.
pub proof fn lemma_generated_document_has_the_right_shape(options: TerraformConfigOptionsView)
    ensures
        structure_result(document(options)) == Ok::<(), ErrorView>(()),
{
    let block = resource_block(options);
    let body = block.body;
    let parts = body.structures;
    reveal_strlit("status");
    reveal_strlit("environment");
    reveal_strlit("kafka_cluster");
    reveal_strlit("config_sensitive");
    reveal_strlit("config_nonsensitive");
    assert("status"@.len() == 6);
    assert("environment"@.len() == 11);
    assert("kafka_cluster"@.len() == 13);
    assert("config_sensitive"@.len() == 16);
    assert("config_nonsensitive"@.len() == 19);
    lemma_first_position_is(parts, is_attribute("status"@), 0);
    lemma_first_position_is(parts, is_block("environment"@), 1);
    lemma_first_position_is(parts, is_block("kafka_cluster"@), 2);
    lemma_first_position_is(parts, is_attribute("config_sensitive"@), 3);
    lemma_first_position_is(parts, is_attribute("config_nonsensitive"@), 4);
    let environment = parts[1]->Block_0.body;
    lemma_first_position_is(environment.structures, is_attribute("id"@), 0);
    let cluster = parts[2]->Block_0.body;
    lemma_first_position_is(cluster.structures, is_attribute("id"@), 0);
    assert(resource_violation(body, block.labels[1]) is None);
    let top = document(options).structures;
    assert(is_connector_resource(top[0]));
    assert(!misshapen_resource()(top[0]));
    lemma_first_position_is(top, misshapen_resource(), 1);
    lemma_first_position_is(top, connector_resource(), 0);
}

/// Where the parser reads the text that was generated for a connector back
/// as the document that was printed, parsing that text gives exactly that
/// connector, and the text passes the check of its shape. That the parser
/// does read the printer's text back is a property of `hcl`, and is not
/// proved here.
pub proof fn lemma_generated_text_reads_back(
    options: TerraformConfigOptionsView,
    text: Seq<char>,
)
    requires
        generation_result(options) == Ok::<Seq<char>, ErrorView>(text),
        hcl_document(text) == Ok::<BodyView, Seq<char>>(document(options)),
    ensures
        parse_result(text) is Ok,
        parse_result(text)->Ok_0.len() == 1,
        parse_result(text)->Ok_0[0].name == resource_name(options.connector_name),
        parse_result(text)->Ok_0[0].connector_class == options.connector.connector_class,
        structure_check(text) == Ok::<(), ErrorView>(()),
{
    lemma_generated_document_reads_back(options);
    lemma_generated_document_has_the_right_shape(options);
}

} // verus!
