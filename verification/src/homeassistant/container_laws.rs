use vstd::prelude::*;

use crate::constants::{AVAILABILITY_TOPIC, SET_STATE_TOPIC};
use crate::mqtt::MqttMessageView;

use super::button::Button;
use super::container::{
    announcement, button_rows, discovery_message, entity_topics, has_standard_entities, is_button_for, is_sensor_for,
    retraction, sensor_rows, unique_id_prefix_of, ButtonRow, ContainerView, SensorRow,
};
use super::entity::{
    config_topic, letters_and_digits_are_kept_lowercased, normalized_id,
    other_characters_separate_words, StateClass,
};
use super::sensor::Sensor;

verus! {

// ---------------------------------------------------------------------------
// Laws of announcing and retracting
// ---------------------------------------------------------------------------

/// When every entity could be described, the announcement holds one message
/// per entity, in order: its description on its topic. The retraction holds
/// one empty message on each of the same topics, in the same order.
pub proof fn complete_announcement_mirrors_retraction(
    topics: Seq<Seq<char>>,
    payloads: Seq<Option<Seq<char>>>,
)
    requires
        payloads.len() == topics.len(),
        forall|i: int| 0 <= i < payloads.len() ==> #[trigger] payloads[i] is Some,
    ensures
        announcement(topics, payloads).len() == topics.len(),
        retraction(topics).len() == topics.len(),
        forall|i: int|
            0 <= i < topics.len() ==> #[trigger] announcement(topics, payloads)[i]
                == discovery_message(topics[i], payloads[i]->0),
        forall|i: int|
            0 <= i < topics.len() ==> #[trigger] retraction(topics)[i] == discovery_message(
                topics[i],
                Seq::empty(),
            ),
    decreases topics.len(),
{
    if topics.len() > 0 {
        let t = topics.drop_last();
        let p = payloads.drop_last();
        assert forall|i: int| 0 <= i < p.len() implies #[trigger] p[i] is Some by {
            assert(p[i] == payloads[i]);
        }
        complete_announcement_mirrors_retraction(t, p);
        assert(payloads[payloads.len() - 1] is Some);
    }
}

/// Some message of `messages` clears `topic`: it is on that topic and has
/// an empty payload.
pub open spec fn clears_topic(messages: Seq<MqttMessageView>, topic: Seq<char>) -> bool {
    exists|i: int|
        0 <= i < messages.len() && #[trigger] messages[i].topic == topic
            && messages[i].payload.len() == 0
}

/// Every topic on which an announcement publishes is cleared by the
/// retraction of the same entities.
pub proof fn announced_topics_are_retracted(
    topics: Seq<Seq<char>>,
    payloads: Seq<Option<Seq<char>>>,
)
    requires
        payloads.len() == topics.len(),
    ensures
        forall|k: int|
            0 <= k < announcement(topics, payloads).len() ==> clears_topic(
                retraction(topics),
                #[trigger] announcement(topics, payloads)[k].topic,
            ),
    decreases topics.len(),
{
    if topics.len() > 0 {
        let t = topics.drop_last();
        let p = payloads.drop_last();
        announced_topics_are_retracted(t, p);
        let a = announcement(topics, payloads);
        let earlier = announcement(t, p);
        let r = retraction(topics);
        assert forall|k: int| 0 <= k < a.len() implies clears_topic(r, #[trigger] a[k].topic) by {
            if k < earlier.len() {
                assert(a[k] == earlier[k]);
                assert(clears_topic(retraction(t), earlier[k].topic));
                let i = choose|i: int|
                    0 <= i < retraction(t).len() && #[trigger] retraction(t)[i].topic
                        == earlier[k].topic && retraction(t)[i].payload.len() == 0;
                assert(r[i] == retraction(t)[i]);
                assert(r[i].topic == a[k].topic && r[i].payload.len() == 0);
            } else {
                let last = topics.len() - 1;
                assert(a[k].topic == topics[last]);
                assert(r[last].topic == a[k].topic && r[last].payload.len() == 0);
            }
        }
    }
}

/// A container with the standard entities has eleven sensors (nine in host
/// network mode) and seven buttons, so it is announced and retracted with
/// eighteen messages (sixteen in host network mode).
pub proof fn standard_entity_count(c: ContainerView)
    requires
        has_standard_entities(c),
    ensures
        c.sensors.len() == (if c.is_host_networking { 9int } else { 11int }),
        c.buttons.len() == 7,
        entity_topics(c).len() == (if c.is_host_networking { 16int } else { 18int }),
        retraction(entity_topics(c)).len() == entity_topics(c).len(),
{
}

// ---------------------------------------------------------------------------
// Every entity of a container has ids and a topic of its own
// ---------------------------------------------------------------------------

/// The suffixes of a container's entities: its sensors', then its buttons'.
pub open spec fn entity_suffixes(is_host_networking: bool) -> Seq<Seq<char>> {
    sensor_rows(is_host_networking).map_values(|r: SensorRow| r.suffix) + button_rows().map_values(
        |r: ButtonRow| r.suffix,
    )
}

/// The unique ids of a container's entities: its sensors', then its buttons'.
pub open spec fn entity_unique_ids(c: ContainerView) -> Seq<Option<Seq<char>>> {
    c.sensors.map_values(|s: Sensor| s.unique_id.deep_view()) + c.buttons.map_values(
        |b: Button| b.unique_id.deep_view(),
    )
}

/// The object ids of a container's entities: its sensors', then its buttons'.
pub open spec fn entity_object_ids(c: ContainerView) -> Seq<Option<Seq<char>>> {
    c.sensors.map_values(|s: Sensor| s.object_id.deep_view()) + c.buttons.map_values(
        |b: Button| b.object_id.deep_view(),
    )
}

spec fn suffix_key(w: Seq<char>) -> (int, char, char, char) {
    (w.len() as int, w[0], w[w.len() - 1], w[w.len() - 2])
}

proof fn lemma_suffixes_distinct(is_host_networking: bool)
    ensures
        entity_suffixes(is_host_networking).no_duplicates(),
{
    reveal_strlit("image");
    reveal_strlit("state");
    reveal_strlit("health");
    reveal_strlit("cpu");
    reveal_strlit("cpu_1core");
    reveal_strlit("mem");
    reveal_strlit("mem_mb");
    reveal_strlit("net_rx");
    reveal_strlit("net_tx");
    reveal_strlit("block_rx");
    reveal_strlit("block_tx");
    reveal_strlit("start");
    reveal_strlit("stop");
    reveal_strlit("restart");
    reveal_strlit("pause");
    reveal_strlit("unpause");
    reveal_strlit("recreate");
    reveal_strlit("pull_recreate");
    let s = entity_suffixes(is_host_networking);
    let common = seq!["image"@, "state"@, "health"@, "cpu"@, "cpu_1core"@, "mem"@, "mem_mb"@];
    let network = seq!["net_rx"@, "net_tx"@];
    let block = seq!["block_rx"@, "block_tx"@];
    let buttons = seq!["start"@, "stop"@, "restart"@, "pause"@, "unpause"@, "recreate"@, "pull_recreate"@];
    let k_common = seq![(5int, 'i', 'e', 'g'), (5int, 's', 'e', 't'), (6int, 'h', 'h', 't'), (3int, 'c', 'u', 'p'), (9int, 'c', 'e', 'r'), (3int, 'm', 'm', 'e'), (6int, 'm', 'b', 'm')];
    let k_network = seq![(6int, 'n', 'x', 'r'), (6int, 'n', 'x', 't')];
    let k_block = seq![(8int, 'b', 'x', 'r'), (8int, 'b', 'x', 't')];
    let k_buttons = seq![(5int, 's', 't', 'r'), (4int, 's', 'p', 'o'), (7int, 'r', 't', 'r'), (5int, 'p', 'e', 's'), (7int, 'u', 'e', 's'), (8int, 'r', 'e', 't'), (13int, 'p', 'e', 't')];
    let (words, keys) = if is_host_networking {
        (common + block + buttons, k_common + k_block + k_buttons)
    } else {
        (common + network + block + buttons, k_common + k_network + k_block + k_buttons)
    };
    assert(s =~= words);
    assert(keys =~= words.map_values(|w: Seq<char>| suffix_key(w)));
    assert(keys.no_duplicates());
    assert forall|i: int, j: int| 0 <= i < s.len() && 0 <= j < s.len() && i != j implies s[i]
        != s[j] by {
        if s[i] == s[j] {
            assert(keys[i] == suffix_key(s[i]));
            assert(keys[j] == suffix_key(s[j]));
        }
    }
}

proof fn lemma_append_cancel(p: Seq<char>, a: Seq<char>, b: Seq<char>)
    requires
        p + a == p + b,
    ensures
        a == b,
{
    assert(a =~= (p + a).subrange(p.len() as int, (p + a).len() as int));
    assert(b =~= (p + b).subrange(p.len() as int, (p + b).len() as int));
}

proof fn lemma_config_topic_injective(
    base_topic: Seq<char>,
    node_id: Seq<char>,
    component1: Seq<char>,
    object_id1: Seq<char>,
    component2: Seq<char>,
    object_id2: Seq<char>,
)
    requires
        component1.len() == component2.len(),
        config_topic(base_topic, component1, node_id, object_id1) == config_topic(
            base_topic,
            component2,
            node_id,
            object_id2,
        ),
    ensures
        component1 == component2,
        object_id1 == object_id2,
{
    reveal_strlit("/");
    reveal_strlit("/config");
    let t1 = config_topic(base_topic, component1, node_id, object_id1);
    let t2 = config_topic(base_topic, component2, node_id, object_id2);
    let lo: int = base_topic.len() + 1int;
    let hi: int = lo + component1.len();
    assert(component1 =~= t1.subrange(lo, hi));
    assert(component2 =~= t2.subrange(lo, hi));
    let start: int = hi + 1 + node_id.len() + 1;
    assert(object_id1 =~= t1.subrange(start, t1.len() - 7));
    assert(object_id2 =~= t2.subrange(start, t2.len() - 7));
}

/// In a container with the standard entities no two entities share a unique
/// id, an object id or a discovery topic.
pub proof fn standard_entities_are_distinct(c: ContainerView)
    requires
        has_standard_entities(c),
    ensures
        entity_unique_ids(c).no_duplicates(),
        entity_object_ids(c).no_duplicates(),
        entity_topics(c).no_duplicates(),
{
    reveal_strlit("sensor");
    reveal_strlit("button");
    lemma_suffixes_distinct(c.is_host_networking);
    let suffixes = entity_suffixes(c.is_host_networking);
    let ns = c.sensors.len() as int;
    let uids = entity_unique_ids(c);
    let oids = entity_object_ids(c);
    let topics = entity_topics(c);
    let base = c.discovery_prefix();
    assert forall|i: int| 0 <= i < suffixes.len() implies {
        &&& #[trigger] uids[i] == Some(c.unique_id(suffixes[i]))
        &&& oids[i] == Some(c.object_id(suffixes[i]))
        &&& topics[i] == config_topic(
            base,
            if i < ns { "sensor"@ } else { "button"@ },
            c.node_id,
            c.object_id(suffixes[i]),
        )
    } by {
        if i < ns {
            assert(is_sensor_for(c.sensors[i], c, sensor_rows(c.is_host_networking)[i]));
        } else {
            assert(is_button_for(c.buttons[i - ns], c, button_rows()[i - ns]));
        }
    }
    assert forall|i: int, j: int|
        0 <= i < suffixes.len() && 0 <= j < suffixes.len() && i != j implies uids[i] != uids[j]
        && oids[i] != oids[j] && topics[i] != topics[j] by {
        assert(uids[i] == Some(c.unique_id(suffixes[i])));
        assert(uids[j] == Some(c.unique_id(suffixes[j])));
        if uids[i] == uids[j] {
            lemma_append_cancel("gc_"@ + c.unique_id_prefix + "_"@, suffixes[i], suffixes[j]);
        }
        if oids[i] == oids[j] {
            lemma_append_cancel(c.object_id_prefix + "_"@, suffixes[i], suffixes[j]);
        }
        if topics[i] == topics[j] {
            lemma_config_topic_injective(
                base,
                c.node_id,
                if i < ns { "sensor"@ } else { "button"@ },
                c.object_id(suffixes[i]),
                if j < ns { "sensor"@ } else { "button"@ },
                c.object_id(suffixes[j]),
            );
            lemma_append_cancel(c.object_id_prefix + "_"@, suffixes[i], suffixes[j]);
        }
    }
}

proof fn lemma_append_cancel_right(a: Seq<char>, b: Seq<char>, s: Seq<char>)
    requires
        a + s == b + s,
    ensures
        a == b,
{
    assert(a =~= (a + s).subrange(0, a.len() as int));
    assert(b =~= (b + s).subrange(0, b.len() as int));
}

/// Containers of the same name on two nodes get the same unique-id prefix
/// (and so the same device identifier and entity unique ids) exactly when
/// the two node ids normalize to the same part.
pub proof fn unique_id_prefix_separates_nodes(
    node_id1: Seq<char>,
    node_id2: Seq<char>,
    container_name: Seq<char>,
)
    ensures
        (unique_id_prefix_of(node_id1, container_name) == unique_id_prefix_of(
            node_id2,
            container_name,
        )) <==> (normalized_id(node_id1, true) == normalized_id(node_id2, true)),
{
    if unique_id_prefix_of(node_id1, container_name) == unique_id_prefix_of(
        node_id2,
        container_name,
    ) {
        let s = "_"@ + normalized_id(container_name, true);
        assert(unique_id_prefix_of(node_id1, container_name) =~= normalized_id(node_id1, true) + s);
        assert(unique_id_prefix_of(node_id2, container_name) =~= normalized_id(node_id2, true) + s);
        lemma_append_cancel_right(normalized_id(node_id1, true), normalized_id(node_id2, true), s);
    }
}

/// Two containers on the same node get the same unique-id prefix exactly
/// when their names normalize to the same part.
pub proof fn unique_id_prefix_separates_containers(
    node_id: Seq<char>,
    container_name1: Seq<char>,
    container_name2: Seq<char>,
)
    ensures
        (unique_id_prefix_of(node_id, container_name1) == unique_id_prefix_of(
            node_id,
            container_name2,
        )) <==> (normalized_id(container_name1, true) == normalized_id(container_name2, true)),
{
    if unique_id_prefix_of(node_id, container_name1) == unique_id_prefix_of(
        node_id,
        container_name2,
    ) {
        lemma_append_cancel(
            normalized_id(node_id, true) + "_"@,
            normalized_id(container_name1, true),
            normalized_id(container_name2, true),
        );
    }
}


// ---------------------------------------------------------------------------
// Sensors read their own field, buttons send their own command
// ---------------------------------------------------------------------------

/// `template` is `{{ value_json['<field>'] }}` where the field is `suffix`,
/// alone or followed by `_percentage` or `_mb`.
pub open spec fn reads_field_of(template: Seq<char>, suffix: Seq<char>) -> bool {
    exists|unit: Seq<char>|
        (unit == Seq::<char>::empty() || unit == "_percentage"@ || unit == "_mb"@) && template
            == "{{ value_json['"@ + suffix + unit + "'] }}"@
}

/// The sensor `s` is filed under `object_id_prefix`, `_` and a suffix, and
/// its value template reads the field named after that suffix.
pub open spec fn reads_own_field(s: Sensor, object_id_prefix: Seq<char>) -> bool {
    exists|suffix: Seq<char>|
        s.object_id.deep_view() == Some(object_id_prefix + "_"@ + suffix) && (
        s.value_template.deep_view() matches Some(t) && reads_field_of(t, suffix))
}

spec fn template_key(t: Seq<char>) -> (int, char, char) {
    (t.len() as int, t[15], t[t.len() - 10])
}

proof fn lemma_sensor_rows_read_their_field(is_host_networking: bool)
    ensures
        forall|i: int|
            0 <= i < sensor_rows(is_host_networking).len() ==> reads_field_of(
                (#[trigger] sensor_rows(is_host_networking)[i]).value_template,
                sensor_rows(is_host_networking)[i].suffix,
            ),
        forall|i: int, j: int|
            0 <= i < sensor_rows(is_host_networking).len() && 0 <= j < sensor_rows(
                is_host_networking,
            ).len() && i != j ==> (#[trigger] sensor_rows(is_host_networking)[i]).value_template
                != (#[trigger] sensor_rows(is_host_networking)[j]).value_template,
{
    reveal_strlit("{{ value_json['image'] }}");
    reveal_strlit("{{ value_json['state'] }}");
    reveal_strlit("{{ value_json['health'] }}");
    reveal_strlit("{{ value_json['cpu_percentage'] }}");
    reveal_strlit("{{ value_json['cpu_1core_percentage'] }}");
    reveal_strlit("{{ value_json['mem_percentage'] }}");
    reveal_strlit("{{ value_json['mem_mb'] }}");
    reveal_strlit("{{ value_json['net_rx_mb'] }}");
    reveal_strlit("{{ value_json['net_tx_mb'] }}");
    reveal_strlit("{{ value_json['block_rx_mb'] }}");
    reveal_strlit("{{ value_json['block_tx_mb'] }}");
    reveal_strlit("image");
    reveal_strlit("state");
    reveal_strlit("health");
    reveal_strlit("cpu");
    reveal_strlit("cpu_1core");
    reveal_strlit("mem");
    reveal_strlit("mem_mb");
    reveal_strlit("net_rx");
    reveal_strlit("net_tx");
    reveal_strlit("block_rx");
    reveal_strlit("block_tx");
    reveal_strlit("_percentage");
    reveal_strlit("_mb");
    reveal_strlit("{{ value_json['");
    reveal_strlit("'] }}");
    assert("{{ value_json['image'] }}"@ =~= "{{ value_json['"@ + "image"@ + Seq::<char>::empty() + "'] }}"@);
    assert(reads_field_of("{{ value_json['image'] }}"@, "image"@));
    assert("{{ value_json['state'] }}"@ =~= "{{ value_json['"@ + "state"@ + Seq::<char>::empty() + "'] }}"@);
    assert(reads_field_of("{{ value_json['state'] }}"@, "state"@));
    assert("{{ value_json['health'] }}"@ =~= "{{ value_json['"@ + "health"@ + Seq::<char>::empty() + "'] }}"@);
    assert(reads_field_of("{{ value_json['health'] }}"@, "health"@));
    assert("{{ value_json['cpu_percentage'] }}"@ =~= "{{ value_json['"@ + "cpu"@ + "_percentage"@ + "'] }}"@);
    assert(reads_field_of("{{ value_json['cpu_percentage'] }}"@, "cpu"@));
    assert("{{ value_json['cpu_1core_percentage'] }}"@ =~= "{{ value_json['"@ + "cpu_1core"@ + "_percentage"@ + "'] }}"@);
    assert(reads_field_of("{{ value_json['cpu_1core_percentage'] }}"@, "cpu_1core"@));
    assert("{{ value_json['mem_percentage'] }}"@ =~= "{{ value_json['"@ + "mem"@ + "_percentage"@ + "'] }}"@);
    assert(reads_field_of("{{ value_json['mem_percentage'] }}"@, "mem"@));
    assert("{{ value_json['mem_mb'] }}"@ =~= "{{ value_json['"@ + "mem_mb"@ + Seq::<char>::empty() + "'] }}"@);
    assert(reads_field_of("{{ value_json['mem_mb'] }}"@, "mem_mb"@));
    assert("{{ value_json['net_rx_mb'] }}"@ =~= "{{ value_json['"@ + "net_rx"@ + "_mb"@ + "'] }}"@);
    assert(reads_field_of("{{ value_json['net_rx_mb'] }}"@, "net_rx"@));
    assert("{{ value_json['net_tx_mb'] }}"@ =~= "{{ value_json['"@ + "net_tx"@ + "_mb"@ + "'] }}"@);
    assert(reads_field_of("{{ value_json['net_tx_mb'] }}"@, "net_tx"@));
    assert("{{ value_json['block_rx_mb'] }}"@ =~= "{{ value_json['"@ + "block_rx"@ + "_mb"@ + "'] }}"@);
    assert(reads_field_of("{{ value_json['block_rx_mb'] }}"@, "block_rx"@));
    assert("{{ value_json['block_tx_mb'] }}"@ =~= "{{ value_json['"@ + "block_tx"@ + "_mb"@ + "'] }}"@);
    assert(reads_field_of("{{ value_json['block_tx_mb'] }}"@, "block_tx"@));
    let rows = sensor_rows(is_host_networking);
    let templates = rows.map_values(|r: SensorRow| r.value_template);
    let keys = templates.map_values(|t: Seq<char>| template_key(t));
    let k_common = seq![(25int, 'i', 'i'), (25int, 's', 's'), (26int, 'h', 'e'), (34int, 'c', 'n'), (40int, 'c', 'n'), (34int, 'm', 'n'), (26int, 'm', 'e')];
    let k_network = seq![(29int, 'n', 'r'), (29int, 'n', 't')];
    let k_block = seq![(31int, 'b', 'r'), (31int, 'b', 't')];
    if is_host_networking {
        assert(keys =~= k_common + k_block);
    } else {
        assert(keys =~= k_common + k_network + k_block);
    }
    assert(keys.no_duplicates());
    assert forall|i: int, j: int|
        0 <= i < rows.len() && 0 <= j < rows.len() && i != j implies (#[trigger] rows[i]).value_template
        != (#[trigger] rows[j]).value_template by {
        assert(keys[i] == template_key(templates[i]));
        assert(keys[j] == template_key(templates[j]));
    }
}

/// Every sensor of a container with the standard entities reads its value
/// from the JSON field named after its own id: its object id is the
/// container's object-id prefix, `_` and a suffix, and its value template is
/// `{{ value_json['<field>'] }}` where the field is that suffix, alone or
/// followed by `_percentage` or `_mb`. No two sensors share a template.
pub proof fn sensors_read_their_own_field(c: ContainerView)
    requires
        has_standard_entities(c),
    ensures
        forall|i: int|
            0 <= i < c.sensors.len() ==> reads_own_field(#[trigger] c.sensors[i], c.object_id_prefix),
        forall|i: int, j: int|
            0 <= i < c.sensors.len() && 0 <= j < c.sensors.len() && i != j ==> (
            #[trigger] c.sensors[i]).value_template.deep_view() != (
            #[trigger] c.sensors[j]).value_template.deep_view(),
{
    let rows = sensor_rows(c.is_host_networking);
    lemma_sensor_rows_read_their_field(c.is_host_networking);
    assert forall|i: int| 0 <= i < c.sensors.len() implies reads_own_field(
        #[trigger] c.sensors[i],
        c.object_id_prefix,
    ) by {
        let suffix = rows[i].suffix;
        assert(is_sensor_for(c.sensors[i], c, rows[i]));
        assert(reads_field_of(rows[i].value_template, suffix));
        assert(c.sensors[i].object_id.deep_view() == Some(c.object_id_prefix + "_"@ + suffix));
        assert(c.sensors[i].value_template.deep_view() == Some(rows[i].value_template));
    }
    assert forall|i: int, j: int|
        0 <= i < c.sensors.len() && 0 <= j < c.sensors.len() && i != j implies (
        #[trigger] c.sensors[i]).value_template.deep_view() != (
        #[trigger] c.sensors[j]).value_template.deep_view() by {
        assert(is_sensor_for(c.sensors[i], c, rows[i]));
        assert(is_sensor_for(c.sensors[j], c, rows[j]));
        assert(rows[i].value_template != rows[j].value_template);
    }
}

/// Every button of a container with the standard entities sends, when
/// pressed, the command its own id names: its object id is the container's
/// object-id prefix, `_` and its press payload. No two buttons send the same
/// command.
pub proof fn buttons_send_their_own_command(c: ContainerView)
    requires
        has_standard_entities(c),
    ensures
        forall|i: int|
            0 <= i < c.buttons.len() ==> (#[trigger] c.buttons[i]).object_id.deep_view() == Some(
                c.object_id_prefix + "_"@ + c.buttons[i].payload_press@,
            ),
        forall|i: int, j: int|
            0 <= i < c.buttons.len() && 0 <= j < c.buttons.len() && i != j ==> (
            #[trigger] c.buttons[i]).payload_press@ != (#[trigger] c.buttons[j]).payload_press@,
{
    let rows = button_rows();
    assert forall|i: int| 0 <= i < c.buttons.len() implies (
    #[trigger] c.buttons[i]).object_id.deep_view() == Some(
        c.object_id_prefix + "_"@ + c.buttons[i].payload_press@,
    ) by {
        assert(is_button_for(c.buttons[i], c, rows[i]));
        assert(rows[i].payload_press == rows[i].suffix);
    }
    standard_entities_are_distinct(c);
    let ns = c.sensors.len() as int;
    let oids = entity_object_ids(c);
    assert forall|i: int, j: int|
        0 <= i < c.buttons.len() && 0 <= j < c.buttons.len() && i != j implies (
        #[trigger] c.buttons[i]).payload_press@ != (#[trigger] c.buttons[j]).payload_press@ by {
        assert(is_button_for(c.buttons[i], c, rows[i]));
        assert(is_button_for(c.buttons[j], c, rows[j]));
        assert(rows[i].payload_press == rows[i].suffix);
        assert(rows[j].payload_press == rows[j].suffix);
        assert(oids[ns + i] == c.buttons[i].object_id.deep_view());
        assert(oids[ns + j] == c.buttons[j].object_id.deep_view());
    }
}


// ---------------------------------------------------------------------------
// Units, network sensors and id prefixes
// ---------------------------------------------------------------------------

/// `template` reads a JSON field whose name ends with `ending`.
pub open spec fn field_ends_with(template: Seq<char>, ending: Seq<char>) -> bool {
    exists|field: Seq<char>| template == "{{ value_json['"@ + field + ending + "'] }}"@
}

/// A sensor with a unit is a measurement whose unit fits the field it
/// reads: `%` for a `_percentage` field, `MB` for a `_mb` field. A sensor
/// without a unit has no state class.
pub open spec fn unit_fits_field(s: Sensor) -> bool {
    match s.unit_of_measurement.deep_view() {
        Some(u) => s.state_class == Some(StateClass::Measurement) && (
        s.value_template.deep_view() matches Some(t) && ((u == "%"@ && field_ends_with(
            t,
            "_percentage"@,
        )) || (u == "MB"@ && field_ends_with(t, "_mb"@)))),
        None => s.state_class is None,
    }
}

spec fn row_unit_fits_field(r: SensorRow) -> bool {
    match r.unit_of_measurement {
        Some(u) => r.state_class == Some(StateClass::Measurement) && ((u == "%"@
            && field_ends_with(r.value_template, "_percentage"@)) || (u == "MB"@
            && field_ends_with(r.value_template, "_mb"@))),
        None => r.state_class is None,
    }
}

proof fn lemma_sensor_rows_units(is_host_networking: bool)
    ensures
        forall|i: int|
            0 <= i < sensor_rows(is_host_networking).len() ==> row_unit_fits_field(
                #[trigger] sensor_rows(is_host_networking)[i],
            ),
{
    reveal_strlit("{{ value_json['image'] }}");
    reveal_strlit("{{ value_json['state'] }}");
    reveal_strlit("{{ value_json['health'] }}");
    reveal_strlit("{{ value_json['cpu_percentage'] }}");
    reveal_strlit("{{ value_json['cpu_1core_percentage'] }}");
    reveal_strlit("{{ value_json['mem_percentage'] }}");
    reveal_strlit("{{ value_json['mem_mb'] }}");
    reveal_strlit("{{ value_json['net_rx_mb'] }}");
    reveal_strlit("{{ value_json['net_tx_mb'] }}");
    reveal_strlit("{{ value_json['block_rx_mb'] }}");
    reveal_strlit("{{ value_json['block_tx_mb'] }}");
    reveal_strlit("cpu");
    reveal_strlit("cpu_1core");
    reveal_strlit("mem");
    reveal_strlit("net_rx");
    reveal_strlit("net_tx");
    reveal_strlit("block_rx");
    reveal_strlit("block_tx");
    reveal_strlit("_percentage");
    reveal_strlit("_mb");
    reveal_strlit("%");
    reveal_strlit("MB");
    reveal_strlit("{{ value_json['");
    reveal_strlit("'] }}");
    assert("{{ value_json['cpu_percentage'] }}"@ =~= "{{ value_json['"@ + "cpu"@ + "_percentage"@ + "'] }}"@);
    assert(field_ends_with("{{ value_json['cpu_percentage'] }}"@, "_percentage"@));
    assert("{{ value_json['cpu_1core_percentage'] }}"@ =~= "{{ value_json['"@ + "cpu_1core"@ + "_percentage"@ + "'] }}"@);
    assert(field_ends_with("{{ value_json['cpu_1core_percentage'] }}"@, "_percentage"@));
    assert("{{ value_json['mem_percentage'] }}"@ =~= "{{ value_json['"@ + "mem"@ + "_percentage"@ + "'] }}"@);
    assert(field_ends_with("{{ value_json['mem_percentage'] }}"@, "_percentage"@));
    assert("{{ value_json['mem_mb'] }}"@ =~= "{{ value_json['"@ + "mem"@ + "_mb"@ + "'] }}"@);
    assert(field_ends_with("{{ value_json['mem_mb'] }}"@, "_mb"@));
    assert("{{ value_json['net_rx_mb'] }}"@ =~= "{{ value_json['"@ + "net_rx"@ + "_mb"@ + "'] }}"@);
    assert(field_ends_with("{{ value_json['net_rx_mb'] }}"@, "_mb"@));
    assert("{{ value_json['net_tx_mb'] }}"@ =~= "{{ value_json['"@ + "net_tx"@ + "_mb"@ + "'] }}"@);
    assert(field_ends_with("{{ value_json['net_tx_mb'] }}"@, "_mb"@));
    assert("{{ value_json['block_rx_mb'] }}"@ =~= "{{ value_json['"@ + "block_rx"@ + "_mb"@ + "'] }}"@);
    assert(field_ends_with("{{ value_json['block_rx_mb'] }}"@, "_mb"@));
    assert("{{ value_json['block_tx_mb'] }}"@ =~= "{{ value_json['"@ + "block_tx"@ + "_mb"@ + "'] }}"@);
    assert(field_ends_with("{{ value_json['block_tx_mb'] }}"@, "_mb"@));
}

/// Every sensor of a container with the standard entities has a unit that
/// fits the field it reads (see [`unit_fits_field`]).
pub proof fn sensor_units_fit_their_fields(c: ContainerView)
    requires
        has_standard_entities(c),
    ensures
        forall|i: int| 0 <= i < c.sensors.len() ==> unit_fits_field(#[trigger] c.sensors[i]),
{
    let rows = sensor_rows(c.is_host_networking);
    lemma_sensor_rows_units(c.is_host_networking);
    assert forall|i: int| 0 <= i < c.sensors.len() implies unit_fits_field(#[trigger] c.sensors[i]) by {
        assert(is_sensor_for(c.sensors[i], c, rows[i]));
        assert(row_unit_fits_field(rows[i]));
    }
}

proof fn lemma_network_rows(is_host_networking: bool)
    ensures
        is_host_networking ==> forall|i: int|
            0 <= i < sensor_rows(is_host_networking).len() ==> (#[trigger] sensor_rows(
                is_host_networking,
            )[i]).value_template != "{{ value_json['net_rx_mb'] }}"@ && sensor_rows(
                is_host_networking,
            )[i].value_template != "{{ value_json['net_tx_mb'] }}"@,
        !is_host_networking ==> sensor_rows(is_host_networking)[7].value_template == "{{ value_json['net_rx_mb'] }}"@
            && sensor_rows(is_host_networking)[8].value_template == "{{ value_json['net_tx_mb'] }}"@,
{
    reveal_strlit("{{ value_json['image'] }}");
    reveal_strlit("{{ value_json['state'] }}");
    reveal_strlit("{{ value_json['health'] }}");
    reveal_strlit("{{ value_json['cpu_percentage'] }}");
    reveal_strlit("{{ value_json['cpu_1core_percentage'] }}");
    reveal_strlit("{{ value_json['mem_percentage'] }}");
    reveal_strlit("{{ value_json['mem_mb'] }}");
    reveal_strlit("{{ value_json['net_rx_mb'] }}");
    reveal_strlit("{{ value_json['net_tx_mb'] }}");
    reveal_strlit("{{ value_json['block_rx_mb'] }}");
    reveal_strlit("{{ value_json['block_tx_mb'] }}");
    let rows = sensor_rows(is_host_networking);
    let keys = rows.map_values(|r: SensorRow| template_key(r.value_template));
    if is_host_networking {
        assert(keys =~= seq![(25int, 'i', 'i'), (25int, 's', 's'), (26int, 'h', 'e'), (34int, 'c', 'n'), (40int, 'c', 'n'), (34int, 'm', 'n'), (26int, 'm', 'e'), (31int, 'b', 'r'), (31int, 'b', 't')]);
        assert forall|i: int| 0 <= i < rows.len() implies (#[trigger] rows[i]).value_template
            != "{{ value_json['net_rx_mb'] }}"@ && rows[i].value_template != "{{ value_json['net_tx_mb'] }}"@ by {
            assert(keys[i] == template_key(rows[i].value_template));
            assert(template_key("{{ value_json['net_rx_mb'] }}"@) == (29int, 'n', 'r'));
            assert(template_key("{{ value_json['net_tx_mb'] }}"@) == (29int, 'n', 't'));
        }
    }
}

/// A container with the standard entities measures network traffic exactly
/// when it is not in host network mode: some sensor reads `net_rx_mb`, and
/// some sensor reads `net_tx_mb`, if and only if the container is not in
/// host network mode.
pub proof fn network_sensors_only_without_host_networking(c: ContainerView)
    requires
        has_standard_entities(c),
    ensures
        (exists|i: int|
            0 <= i < c.sensors.len() && (#[trigger] c.sensors[i]).value_template.deep_view()
                == Some("{{ value_json['net_rx_mb'] }}"@)) <==> !c.is_host_networking,
        (exists|i: int|
            0 <= i < c.sensors.len() && (#[trigger] c.sensors[i]).value_template.deep_view()
                == Some("{{ value_json['net_tx_mb'] }}"@)) <==> !c.is_host_networking,
{
    let rows = sensor_rows(c.is_host_networking);
    lemma_network_rows(c.is_host_networking);
    if c.is_host_networking {
        assert forall|i: int| 0 <= i < c.sensors.len() implies (#[trigger] c.sensors[i]).value_template.deep_view()
            != Some("{{ value_json['net_rx_mb'] }}"@) && c.sensors[i].value_template.deep_view()
            != Some("{{ value_json['net_tx_mb'] }}"@) by {
            assert(is_sensor_for(c.sensors[i], c, rows[i]));
        }
    } else {
        assert(is_sensor_for(c.sensors[7], c, rows[7]));
        assert(is_sensor_for(c.sensors[8], c, rows[8]));
    }
}

/// For a node name and a container name made of ASCII letters, digits and
/// `-`, the unique-id prefix is the node name, `_` and the container name,
/// each with its upper-case letters lower-cased and every `-` kept.
pub proof fn unique_id_prefix_of_plain_names(node_id: Seq<char>, container_name: Seq<char>)
    requires
        node_id.len() > 0,
        container_name.len() > 0,
        forall|i: int| 0 <= i < node_id.len() ==> ('0' <= #[trigger] node_id[i] && node_id[i] <= '9') || ('a' <= node_id[i] && node_id[i] <= 'z') || ('A' <= node_id[i] && node_id[i] <= 'Z') || node_id[i] == '-',
        forall|i: int| 0 <= i < container_name.len() ==> ('0' <= #[trigger] container_name[i] && container_name[i] <= '9') || ('a' <= container_name[i] && container_name[i] <= 'z') || ('A' <= container_name[i] && container_name[i] <= 'Z') || container_name[i] == '-',
    ensures
        unique_id_prefix_of(node_id, container_name).len() == node_id.len() + 1
            + container_name.len(),
        unique_id_prefix_of(node_id, container_name)[node_id.len() as int] == '_',
        forall|i: int|
            #![trigger unique_id_prefix_of(node_id, container_name)[i]]
            0 <= i < node_id.len() ==> if 'A' <= node_id[i] && node_id[i] <= 'Z' { unique_id_prefix_of(node_id, container_name)[i] as u32 == node_id[i] as u32 + 32 } else { unique_id_prefix_of(node_id, container_name)[i] == node_id[i] },
        forall|i: int|
            #![trigger container_name[i]]
            0 <= i < container_name.len() ==> if 'A' <= container_name[i] && container_name[i] <= 'Z' { unique_id_prefix_of(node_id, container_name)[node_id.len() + 1 + i] as u32 == container_name[i] as u32 + 32 } else { unique_id_prefix_of(node_id, container_name)[node_id.len() + 1 + i] == container_name[i] },
{
    reveal_strlit("_");
    letters_and_digits_are_kept_lowercased(node_id, true);
    letters_and_digits_are_kept_lowercased(container_name, true);
    let n = normalized_id(node_id, true);
    let m = normalized_id(container_name, true);
    let p = unique_id_prefix_of(node_id, container_name);
    assert(p =~= n + seq!['_'] + m);
    assert forall|i: int| 0 <= i < container_name.len() implies #[trigger] p[node_id.len() + 1 + i]
        == m[i] by {}
}

/// For a node name and a container name made of ASCII letters and digits,
/// the object-id prefix, the normalized node name, `_` and container name,
/// is the node name, `_` and the container name, each lower-cased.
pub proof fn object_id_prefix_of_plain_names(node_id: Seq<char>, container_name: Seq<char>)
    requires
        node_id.len() > 0,
        container_name.len() > 0,
        forall|i: int| 0 <= i < node_id.len() ==> ('0' <= #[trigger] node_id[i] && node_id[i] <= '9') || ('a' <= node_id[i] && node_id[i] <= 'z') || ('A' <= node_id[i] && node_id[i] <= 'Z'),
        forall|i: int| 0 <= i < container_name.len() ==> ('0' <= #[trigger] container_name[i] && container_name[i] <= '9') || ('a' <= container_name[i] && container_name[i] <= 'z') || ('A' <= container_name[i] && container_name[i] <= 'Z'),
    ensures
        normalized_id(node_id + "_"@ + container_name, false).len() == node_id.len() + 1
            + container_name.len(),
        normalized_id(node_id + "_"@ + container_name, false)[node_id.len() as int] == '_',
        forall|i: int|
            #![trigger normalized_id(node_id + "_"@ + container_name, false)[i]]
            0 <= i < node_id.len() ==> if 'A' <= node_id[i] && node_id[i] <= 'Z' { normalized_id(node_id + "_"@ + container_name, false)[i] as u32 == node_id[i] as u32 + 32 } else { normalized_id(node_id + "_"@ + container_name, false)[i] == node_id[i] },
        forall|i: int|
            #![trigger container_name[i]]
            0 <= i < container_name.len() ==> if 'A' <= container_name[i] && container_name[i] <= 'Z' { normalized_id(node_id + "_"@ + container_name, false)[node_id.len() + 1 + i] as u32 == container_name[i] as u32 + 32 } else { normalized_id(node_id + "_"@ + container_name, false)[node_id.len() + 1 + i] == container_name[i] },
{
    reveal_strlit("_");
    assert("_"@ =~= seq!['_']);
    other_characters_separate_words(node_id, seq!['_'], container_name, false);
    letters_and_digits_are_kept_lowercased(node_id, false);
    letters_and_digits_are_kept_lowercased(container_name, false);
    let n = normalized_id(node_id, false);
    let m = normalized_id(container_name, false);
    let p = normalized_id(node_id + "_"@ + container_name, false);
    assert(p =~= n + seq!['_'] + m);
    assert forall|i: int| 0 <= i < container_name.len() implies #[trigger] p[node_id.len() + 1 + i]
        == m[i] by {}
}

/// In a container with the standard entities every sensor publishes its
/// state on `<mqtt base>/<container name>`, every button listens for
/// commands on that topic followed by `/set`, and every entity reports
/// availability on `<mqtt base>/availability`.
pub proof fn entity_topics_follow_the_container(c: ContainerView)
    requires
        has_standard_entities(c),
    ensures
        forall|i: int|
            0 <= i < c.sensors.len() ==> (#[trigger] c.sensors[i]).state_topic@
                == c.settings.mqtt.base_topic@ + seq!['/'] + c.container_name,
        forall|i: int|
            0 <= i < c.buttons.len() ==> (#[trigger] c.buttons[i]).command_topic@
                == c.settings.mqtt.base_topic@ + seq!['/'] + c.container_name + seq![
                '/',
                's',
                'e',
                't',
            ],
        forall|i: int|
            0 <= i < c.sensors.len() ==> (#[trigger] c.sensors[i]).availability_topic.deep_view()
                == Some(
                c.settings.mqtt.base_topic@ + seq!['/'] + seq![
                    'a',
                    'v',
                    'a',
                    'i',
                    'l',
                    'a',
                    'b',
                    'i',
                    'l',
                    'i',
                    't',
                    'y',
                ],
            ),
        forall|i: int|
            0 <= i < c.buttons.len() ==> (#[trigger] c.buttons[i]).availability_topic.deep_view()
                == Some(
                c.settings.mqtt.base_topic@ + seq!['/'] + seq![
                    'a',
                    'v',
                    'a',
                    'i',
                    'l',
                    'a',
                    'b',
                    'i',
                    'l',
                    'i',
                    't',
                    'y',
                ],
            ),
{
    reveal_strlit("/");
    reveal_strlit("set");
    reveal_strlit("availability");
    let base = c.settings.mqtt.base_topic@;
    assert("/"@ =~= seq!['/']);
    assert(SET_STATE_TOPIC@ =~= seq!['s', 'e', 't']);
    assert(AVAILABILITY_TOPIC@ =~= seq!['a', 'v', 'a', 'i', 'l', 'a', 'b', 'i', 'l', 'i', 't', 'y']);
    assert(base + "/"@ + c.container_name + "/"@ + SET_STATE_TOPIC@ =~= base + seq!['/']
        + c.container_name + seq!['/', 's', 'e', 't']);
    assert forall|i: int| 0 <= i < c.sensors.len() implies is_sensor_for(
        #[trigger] c.sensors[i],
        c,
        sensor_rows(c.is_host_networking)[i],
    ) by {}
    assert forall|i: int| 0 <= i < c.buttons.len() implies is_button_for(
        #[trigger] c.buttons[i],
        c,
        button_rows()[i],
    ) by {}
}

} // verus!
