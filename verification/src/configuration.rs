//! The configuration catalog: descriptor records for every recognized
//! configuration key, sorted by name in ordinal order.

use vstd::prelude::*;
use crate::text::lex_le;

verus! {

pub const BOOLEAN: &'static str = "boolean";

pub const NULLABLE_BOOLEAN: &'static str = "boolean";

pub const INTEGER: &'static str = "integer";

// STRING has always read "boolean" in the published catalog, almost certainly
// a typo for "string"; it is kept as is until a product decision corrects it.
pub const STRING: &'static str = "boolean";

pub const NULLABLE_STRING: &'static str = "nullable string";

/// One configuration-option descriptor: a dotted identifier, a free-text
/// type label, and free-text default, domain and description.
#[derive(Debug, PartialEq, Eq)]
pub struct Config {
    pub name: String,
    pub data_type: String,
    pub default_value: String,
    pub possible_values: String,
    pub description: String,
}

/// Mathematical model of a `Config`: the five fields as character sequences.
pub struct ConfigData {
    pub name: Seq<char>,
    pub data_type: Seq<char>,
    pub default_value: Seq<char>,
    pub possible_values: Seq<char>,
    pub description: Seq<char>,
}

impl View for Config {
    type V = ConfigData;

    open spec fn view(&self) -> ConfigData {
        ConfigData {
            name: self.name@,
            data_type: self.data_type@,
            default_value: self.default_value@,
            possible_values: self.possible_values@,
            description: self.description@,
        }
    }
}

impl DeepView for Config {
    type V = ConfigData;

    open spec fn deep_view(&self) -> ConfigData {
        self.view()
    }
}

/// The literal, hand-authored descriptor list, in authoring order, before
/// sorting. It knowingly holds two identical records for
/// `sort_value.no_due_date`; no deduplication is ever applied.
pub open spec fn raw_catalog() -> Seq<ConfigData> {
    seq![
        ConfigData {
            name: "bell_on_success"@,
            data_type: BOOLEAN@,
            default_value: "false"@,
            possible_values: "true or false"@,
            description: "Triggers the terminal bell on successful completion of a command"@,
        },
        ConfigData {
            name: "bell_on_failure"@,
            data_type: BOOLEAN@,
            default_value: "true"@,
            possible_values: "true or false"@,
            description: "Triggers the terminal bell on an error"@,
        },
        ConfigData {
            name: "disable_links"@,
            data_type: BOOLEAN@,
            default_value: "false"@,
            possible_values: "true or false"@,
            description: "If true, disables OSC8 linking and just displays plain text"@,
        },
        ConfigData {
            name: "last_version_check"@,
            data_type: NULLABLE_STRING@,
            default_value: "null"@,
            possible_values: "null or a string in format YYYY-MM-DD"@,
            description: "Holds a string date, i.e. `\"2023-08-30\"` representing the last time crates.io was checked for the latest `tod` version. Tod will check crates.io a maximum of once per day."@,
        },
        ConfigData {
            name: "next_id"@,
            data_type: NULLABLE_STRING@,
            default_value: "null"@,
            possible_values: "null or any positive integer in string form"@,
            description: "When `task next` is executed the ID is stored in this field. When `task complete` is run the field is set back to `null`
                    "@,
        },
        ConfigData {
            name: "path"@,
            data_type: STRING@,
            default_value: "$XDG_CONFIG_HOME/tod.cfg"@,
            possible_values: "any path"@,
            description: "Location of the tod configuration file"@,
        },
        ConfigData {
            name: "natural_language_only"@,
            data_type: NULLABLE_BOOLEAN@,
            default_value: "null"@,
            possible_values: "null, true, or false"@,
            description: "If true, the datetime selection in `project schedule` will go straight to natural language input."@,
        },
        ConfigData {
            name: "no_sections"@,
            data_type: NULLABLE_BOOLEAN@,
            default_value: "null"@,
            possible_values: "null, true, or false"@,
            description: "If true, will not prompt for a section whenever possible."@,
        },
        ConfigData {
            name: "spinners"@,
            data_type: NULLABLE_BOOLEAN@,
            default_value: "null"@,
            possible_values: "null, true, or false"@,
            description: "Controls whether the spinner is displayed when an API call occurs. Useful for cases where the terminal output is captured. `null` is considered the same as `true`. You can also use the environment variable DISABLE_SPINNER to turn them off, i.e. `DISABLE_SPINNER=1 tod task create`"@,
        },
        ConfigData {
            name: "timeout"@,
            data_type: INTEGER@,
            default_value: "30 (seconds)"@,
            possible_values: "any positive integer in seconds"@,
            description: "Time before an HTTP request is cancelled"@,
        },
        ConfigData {
            name: "timezone"@,
            data_type: STRING@,
            default_value: "No default"@,
            possible_values: "Any timezone string i.e. \"Canada/Pacific\""@,
            description: "You will be prompted for a timezone on first run. This is used in cases where the API does not specify the timezone explicitly."@,
        },
        ConfigData {
            name: "token"@,
            data_type: STRING@,
            default_value: "No default"@,
            possible_values: "Any valid Todoist API token"@,
            description: "You will be prompted for your [Todoist API token](https://todoist.com/prefs/integrations) on first run"@,
        },
        ConfigData {
            name: "vecprojects"@,
            data_type: "Nullable array of objects"@,
            default_value: "null"@,
            possible_values: "null or a list of project objects"@,
            description: "Projects are stored locally in config to help save on API requests and speed up actions taken. Manage this with the `project` subcommands. The strange naming is because `projects` was used in previous versions of `tod`"@,
        },
        ConfigData {
            name: "verbose"@,
            data_type: NULLABLE_BOOLEAN@,
            default_value: "null"@,
            possible_values: "null, true, or false"@,
            description: "Outputs additional information in console to assist with debugging"@,
        },
        ConfigData {
            name: "sort_value"@,
            data_type: "object"@,
            default_value: "{
                             \"no_due_date\": 80,
                             \"not_recurring\": 50,
                             \"now\": 200,
                             \"overdue\": 150,
                             \"priority_high\": 4,
                             \"priority_low\": 1,
                             \"priority_medium\": 3,
                             \"priority_none\": 2,
                             \"today\": 100
                           },
            "@,
            possible_values: "see default value"@,
            description: "Tasks are valued as the sum of the categories that apply."@,
        },
        ConfigData {
            name: "sort_value.no_due_date"@,
            data_type: "integer"@,
            default_value: "80"@,
            possible_values: "any non-negative integer"@,
            description: "Adds the value to task when sorting if the task has no due date or time on it."@,
        },
        ConfigData {
            name: "sort_value.no_due_date"@,
            data_type: "integer"@,
            default_value: "80"@,
            possible_values: "any non-negative integer"@,
            description: "Adds the value to task when sorting if the task has no due date or time on it."@,
        },
        ConfigData {
            name: "sort_value.overdue"@,
            data_type: "integer"@,
            default_value: "150"@,
            possible_values: "any non-negative integer"@,
            description: "Adds the value to task when sorting if the task has a due date in the past."@,
        },
        ConfigData {
            name: "sort_value.not_recurring"@,
            data_type: "integer"@,
            default_value: "50"@,
            possible_values: "any non-negative integer"@,
            description: "Adds the value to task when sorting if the task is not recurring."@,
        },
        ConfigData {
            name: "sort_value.now"@,
            data_type: "integer"@,
            default_value: "200"@,
            possible_values: "any non-negative integer"@,
            description: "Adds the value to task when sorting if the task is scheduled within the next or last 15 minutes."@,
        },
        ConfigData {
            name: "sort_value.today"@,
            data_type: "integer"@,
            default_value: "100"@,
            possible_values: "any non-negative integer"@,
            description: "Adds the value to task when sorting if the task is scheduled today but does not have a time."@,
        },
        ConfigData {
            name: "sort_value.priority_none"@,
            data_type: "integer"@,
            default_value: "2"@,
            possible_values: "any non-negative integer"@,
            description: "Adds the value to task when sorting if the task has no priority."@,
        },
        ConfigData {
            name: "sort_value.priority_low"@,
            data_type: "integer"@,
            default_value: "1"@,
            possible_values: "any non-negative integer"@,
            description: "Adds the value to task when sorting if the task has a low priority."@,
        },
        ConfigData {
            name: "sort_value.priority_medium"@,
            data_type: "integer"@,
            default_value: "3"@,
            possible_values: "any non-negative integer"@,
            description: "Adds the value to task when sorting if the task has a medium priority priority."@,
        },
        ConfigData {
            name: "sort_value.priority_high"@,
            data_type: "integer"@,
            default_value: "4"@,
            possible_values: "any non-negative integer"@,
            description: "Adds the value to task when sorting if the task has a high priority."@,
        },
    ]
}

/// Assembles one descriptor from its five fields.
fn cfg(
    name: &str,
    data_type: &str,
    default_value: &str,
    possible_values: &str,
    description: &str,
) -> (c: Config)
    ensures
        c@ == (ConfigData {
            name: name@,
            data_type: data_type@,
            default_value: default_value@,
            possible_values: possible_values@,
            description: description@,
        }),
{
    Config {
        name: name.to_owned(),
        data_type: data_type.to_owned(),
        default_value: default_value.to_owned(),
        possible_values: possible_values.to_owned(),
        description: description.to_owned(),
    }
}

/// The descriptor list in authoring order, as a vector.
fn raw_config() -> (r: Vec<Config>)
    ensures
        r.deep_view() == raw_catalog(),
{
    let mut r: Vec<Config> = Vec::new();
    r.push(cfg(
        "bell_on_success",
        BOOLEAN,
        "false",
        "true or false",
        "Triggers the terminal bell on successful completion of a command",
    ));
    r.push(cfg(
        "bell_on_failure",
        BOOLEAN,
        "true",
        "true or false",
        "Triggers the terminal bell on an error",
    ));
    r.push(cfg(
        "disable_links",
        BOOLEAN,
        "false",
        "true or false",
        "If true, disables OSC8 linking and just displays plain text",
    ));
    r.push(cfg(
        "last_version_check",
        NULLABLE_STRING,
        "null",
        "null or a string in format YYYY-MM-DD",
        "Holds a string date, i.e. `\"2023-08-30\"` representing the last time crates.io was checked for the latest `tod` version. Tod will check crates.io a maximum of once per day.",
    ));
    r.push(cfg(
        "next_id",
        NULLABLE_STRING,
        "null",
        "null or any positive integer in string form",
        "When `task next` is executed the ID is stored in this field. When `task complete` is run the field is set back to `null`
                    ",
    ));
    r.push(cfg(
        "path",
        STRING,
        "$XDG_CONFIG_HOME/tod.cfg",
        "any path",
        "Location of the tod configuration file",
    ));
    r.push(cfg(
        "natural_language_only",
        NULLABLE_BOOLEAN,
        "null",
        "null, true, or false",
        "If true, the datetime selection in `project schedule` will go straight to natural language input.",
    ));
    r.push(cfg(
        "no_sections",
        NULLABLE_BOOLEAN,
        "null",
        "null, true, or false",
        "If true, will not prompt for a section whenever possible.",
    ));
    r.push(cfg(
        "spinners",
        NULLABLE_BOOLEAN,
        "null",
        "null, true, or false",
        "Controls whether the spinner is displayed when an API call occurs. Useful for cases where the terminal output is captured. `null` is considered the same as `true`. You can also use the environment variable DISABLE_SPINNER to turn them off, i.e. `DISABLE_SPINNER=1 tod task create`",
    ));
    r.push(cfg(
        "timeout",
        INTEGER,
        "30 (seconds)",
        "any positive integer in seconds",
        "Time before an HTTP request is cancelled",
    ));
    r.push(cfg(
        "timezone",
        STRING,
        "No default",
        "Any timezone string i.e. \"Canada/Pacific\"",
        "You will be prompted for a timezone on first run. This is used in cases where the API does not specify the timezone explicitly.",
    ));
    r.push(cfg(
        "token",
        STRING,
        "No default",
        "Any valid Todoist API token",
        "You will be prompted for your [Todoist API token](https://todoist.com/prefs/integrations) on first run",
    ));
    r.push(cfg(
        "vecprojects",
        "Nullable array of objects",
        "null",
        "null or a list of project objects",
        "Projects are stored locally in config to help save on API requests and speed up actions taken. Manage this with the `project` subcommands. The strange naming is because `projects` was used in previous versions of `tod`",
    ));
    r.push(cfg(
        "verbose",
        NULLABLE_BOOLEAN,
        "null",
        "null, true, or false",
        "Outputs additional information in console to assist with debugging",
    ));
    r.push(cfg(
        "sort_value",
        "object",
        "{
                             \"no_due_date\": 80,
                             \"not_recurring\": 50,
                             \"now\": 200,
                             \"overdue\": 150,
                             \"priority_high\": 4,
                             \"priority_low\": 1,
                             \"priority_medium\": 3,
                             \"priority_none\": 2,
                             \"today\": 100
                           },
            ",
        "see default value",
        "Tasks are valued as the sum of the categories that apply.",
    ));
    r.push(cfg(
        "sort_value.no_due_date",
        "integer",
        "80",
        "any non-negative integer",
        "Adds the value to task when sorting if the task has no due date or time on it.",
    ));
    r.push(cfg(
        "sort_value.no_due_date",
        "integer",
        "80",
        "any non-negative integer",
        "Adds the value to task when sorting if the task has no due date or time on it.",
    ));
    r.push(cfg(
        "sort_value.overdue",
        "integer",
        "150",
        "any non-negative integer",
        "Adds the value to task when sorting if the task has a due date in the past.",
    ));
    r.push(cfg(
        "sort_value.not_recurring",
        "integer",
        "50",
        "any non-negative integer",
        "Adds the value to task when sorting if the task is not recurring.",
    ));
    r.push(cfg(
        "sort_value.now",
        "integer",
        "200",
        "any non-negative integer",
        "Adds the value to task when sorting if the task is scheduled within the next or last 15 minutes.",
    ));
    r.push(cfg(
        "sort_value.today",
        "integer",
        "100",
        "any non-negative integer",
        "Adds the value to task when sorting if the task is scheduled today but does not have a time.",
    ));
    r.push(cfg(
        "sort_value.priority_none",
        "integer",
        "2",
        "any non-negative integer",
        "Adds the value to task when sorting if the task has no priority.",
    ));
    r.push(cfg(
        "sort_value.priority_low",
        "integer",
        "1",
        "any non-negative integer",
        "Adds the value to task when sorting if the task has a low priority.",
    ));
    r.push(cfg(
        "sort_value.priority_medium",
        "integer",
        "3",
        "any non-negative integer",
        "Adds the value to task when sorting if the task has a medium priority priority.",
    ));
    r.push(cfg(
        "sort_value.priority_high",
        "integer",
        "4",
        "any non-negative integer",
        "Adds the value to task when sorting if the task has a high priority.",
    ));
    proof {
        assert(r.deep_view() =~= raw_catalog());
    }
    r
}

/// Places `x` after every record whose name compares less or equal to its
/// own, so that equally named records keep their authoring order.
pub open spec fn insert_by_name(s: Seq<ConfigData>, x: ConfigData) -> Seq<ConfigData>
    decreases s.len(),
{
    if s.len() == 0 {
        seq![x]
    } else if lex_le(s[0].name, x.name) {
        seq![s[0]] + insert_by_name(s.drop_first(), x)
    } else {
        seq![x] + s
    }
}

/// Stable insertion sort of descriptor records, keyed on `name` in ordinal
/// order.
pub open spec fn sort_by_name(s: Seq<ConfigData>) -> Seq<ConfigData>
    decreases s.len(),
{
    if s.len() == 0 {
        Seq::empty()
    } else {
        insert_by_name(sort_by_name(s.drop_last()), s.last())
    }
}

/// The catalog: the literal descriptor list, sorted by name.
pub open spec fn catalog() -> Seq<ConfigData> {
    sort_by_name(raw_catalog())
}

/// Non-decreasing ordinal order of names between every adjacent pair.
pub open spec fn sorted_by_name(s: Seq<ConfigData>) -> bool {
    forall|i: int| 0 <= i < s.len() - 1 ==> lex_le(#[trigger] s[i].name, s[i + 1].name)
}

/// Inserting a record into a sorted sequence keeps it sorted and adds the
/// record, removing nothing.
proof fn lemma_insert_by_name_ensures(s: Seq<ConfigData>, x: ConfigData)
    requires
        sorted_by_name(s),
    ensures
        sorted_by_name(insert_by_name(s, x)),
        insert_by_name(s, x).to_multiset() == s.to_multiset().insert(x),
        insert_by_name(s, x).len() == s.len() + 1,
    decreases s.len(),
{
    broadcast use vstd::seq_lib::group_to_multiset_ensures;

    let t = insert_by_name(s, x);
    if s.len() == 0 {
        assert(seq![x] =~= Seq::<ConfigData>::empty().push(x));
        assert(t.to_multiset() =~= s.to_multiset().insert(x));
    } else if lex_le(s[0].name, x.name) {
        let rest = insert_by_name(s.drop_first(), x);
        assert(sorted_by_name(s.drop_first())) by {
            assert(forall|i: int|
                0 <= i < s.drop_first().len() - 1 ==> lex_le(
                    #[trigger] s.drop_first()[i].name,
                    s.drop_first()[i + 1].name,
                ));
        }
        lemma_insert_by_name_ensures(s.drop_first(), x);
        assert(sorted_by_name(t)) by {
            assert(t[0] == s[0]);
            assert(forall|i: int| 0 <= i < rest.len() ==> t[i + 1] == rest[i]);
            let d = s.drop_first();
            if d.len() == 0 {
                assert(rest[0] == x);
            } else if lex_le(d[0].name, x.name) {
                assert(rest[0] == d[0]);
                assert(d[0] == s[1]);
            } else {
                assert(rest[0] == x);
            }
            assert(lex_le(t[0].name, t[1].name));
        }
        assert(t.to_multiset() =~= s.to_multiset().insert(x)) by {
            assert(t =~= seq![s[0]] + rest);
            assert(seq![s[0]] + rest =~= rest.insert(0, s[0]));
            vstd::seq_lib::lemma_multiset_commutative(seq![s[0]], rest);
            assert(seq![s[0]].to_multiset() =~= Seq::<ConfigData>::empty().push(
                s[0],
            ).to_multiset());
            assert(s =~= seq![s[0]] + s.drop_first());
            vstd::seq_lib::lemma_multiset_commutative(seq![s[0]], s.drop_first());
        }
    } else {
        crate::text::lemma_lex_le_total(s[0].name, x.name);
        assert(sorted_by_name(t)) by {
            assert(t[0] == x);
            assert(forall|i: int| 0 <= i < s.len() ==> t[i + 1] == s[i]);
            assert(lex_le(t[0].name, t[1].name));
        }
        assert(t.to_multiset() =~= s.to_multiset().insert(x)) by {
            vstd::seq_lib::lemma_multiset_commutative(seq![x], s);
            assert(seq![x].to_multiset() =~= Seq::<ConfigData>::empty().push(x).to_multiset());
        }
    }
}

/// The stable sort returns a sorted permutation of its input.
pub proof fn lemma_sort_by_name_ensures(s: Seq<ConfigData>)
    ensures
        sorted_by_name(sort_by_name(s)),
        sort_by_name(s).to_multiset() == s.to_multiset(),
        sort_by_name(s).len() == s.len(),
    decreases s.len(),
{
    broadcast use vstd::seq_lib::group_to_multiset_ensures;

    if s.len() > 0 {
        lemma_sort_by_name_ensures(s.drop_last());
        lemma_insert_by_name_ensures(sort_by_name(s.drop_last()), s.last());
        assert(s =~= s.drop_last().push(s.last()));
        assert(s.drop_last().push(s.last()).to_multiset() =~= s.drop_last().to_multiset().insert(
            s.last(),
        ));
    }
}

/// Appending one record and then sorting is the same as sorting and then
/// inserting that record.
proof fn lemma_sort_by_name_push(s: Seq<ConfigData>, x: ConfigData)
    ensures
        sort_by_name(s.push(x)) == insert_by_name(sort_by_name(s), x),
{
    assert(s.push(x).drop_last() =~= s);
    assert(s.push(x).last() == x);
}

/// When every name before position `i` is at most `x`'s and the name at `i`
/// (if any) is not, inserting by name lands exactly at position `i`.
proof fn lemma_insert_by_name_at(s: Seq<ConfigData>, x: ConfigData, i: int)
    requires
        0 <= i <= s.len(),
        forall|k: int| 0 <= k < i ==> lex_le(#[trigger] s[k].name, x.name),
        i < s.len() ==> !lex_le(s[i].name, x.name),
    ensures
        insert_by_name(s, x) == s.insert(i, x),
    decreases i,
{
    if s.len() == 0 {
        assert(insert_by_name(s, x) =~= s.insert(0, x));
    } else if i == 0 {
        assert(insert_by_name(s, x) =~= s.insert(0, x));
    } else {
        assert(lex_le(s[0].name, x.name));
        lemma_insert_by_name_at(s.drop_first(), x, i - 1);
        assert(seq![s[0]] + s.drop_first().insert(i - 1, x) =~= s.insert(i, x));
    }
}

/// Inserts one record into a name-sorted vector, after all records whose
/// names are not greater.
fn insert_config(v: &mut Vec<Config>, c: Config)
    ensures
        final (v).deep_view() == insert_by_name(old(v).deep_view(), c@),
{
    let ghost s = v.deep_view();
    let mut i: usize = 0;
    while i < v.len()
        invariant
            i <= v.len(),
            s == v.deep_view(),
            forall|k: int| 0 <= k < i ==> lex_le(#[trigger] s[k].name, c@.name),
        ensures
            i <= v.len(),
            s == v.deep_view(),
            forall|k: int| 0 <= k < i ==> lex_le(#[trigger] s[k].name, c@.name),
            i < v.len() ==> !lex_le(s[i as int].name, c@.name),
        decreases v.len() - i,
    {
        if !crate::text::str_le(v[i].name.as_str(), c.name.as_str()) {
            break;
        }
        i = i + 1;
    }
    proof {
        lemma_insert_by_name_at(s, c@, i as int);
    }
    v.insert(i, c);
    proof {
        assert(v.deep_view() =~= s.insert(i as int, c@));
    }
}

/// Sorts descriptor records by name with a stable insertion sort.
fn sort_configs(v: Vec<Config>) -> (r: Vec<Config>)
    ensures
        r.deep_view() == sort_by_name(v.deep_view()),
{
    let ghost orig = v.deep_view();
    let mut v = v;
    let mut r: Vec<Config> = Vec::new();
    let ghost done = Seq::<ConfigData>::empty();
    proof {
        assert(r.deep_view() =~= sort_by_name(done));
        assert(done + v.deep_view() =~= orig);
    }
    while v.len() > 0
        invariant
            r.deep_view() == sort_by_name(done),
            done + v.deep_view() == orig,
        decreases v.len(),
    {
        let ghost prev = v.deep_view();
        let c = v.remove(0);
        proof {
            assert(v.deep_view() =~= prev.drop_first());
            lemma_sort_by_name_push(done, c@);
            assert(done.push(c@) + v.deep_view() =~= orig);
        }
        insert_config(&mut r, c);
        proof {
            done = done.push(c@);
        }
    }
    proof {
        assert(done =~= orig);
    }
    r
}

/// Builds the configuration catalog: the literal descriptor list, stably
/// sorted by name in ordinal order, duplicates kept. Pure and deterministic;
/// every call returns the same records in the same order.
pub fn get_config() -> (r: Vec<Config>)
    ensures
        r.deep_view() == catalog(),
{
    sort_configs(raw_config())
}

/// The catalog is sorted: every adjacent pair of records has names in
/// non-decreasing ordinal order, and nothing of the literal list is lost:
/// the catalog holds exactly its records, the known duplicate included.
pub proof fn lemma_catalog_sorted()
    ensures
        sorted_by_name(catalog()),
        catalog().to_multiset() == raw_catalog().to_multiset(),
        catalog().len() == raw_catalog().len(),
{
    lemma_sort_by_name_ensures(raw_catalog());
}

/// Building the catalog is deterministic: any two sequences that satisfy the
/// builder's contract have equal length and pairwise-equal records.
pub proof fn lemma_catalog_deterministic(a: Seq<ConfigData>, b: Seq<ConfigData>)
    requires
        a == catalog(),
        b == catalog(),
    ensures
        a.len() == b.len(),
        forall|i: int| 0 <= i < a.len() ==> a[i] == b[i],
{
}

/// In a name-sorted sequence, records that share a name stand together:
/// everything between two records of equal name carries that same name.
pub proof fn lemma_equal_names_contiguous(s: Seq<ConfigData>, i: int, j: int, k: int)
    requires
        sorted_by_name(s),
        0 <= i <= k <= j < s.len(),
        s[i].name == s[j].name,
    ensures
        s[k].name == s[i].name,
{
    lemma_sorted_pair(s, i, k);
    lemma_sorted_pair(s, k, j);
    crate::text::lemma_lex_le_antisym(s[i].name, s[k].name);
}

/// In a name-sorted sequence, any earlier record's name is at most any later
/// one's.
proof fn lemma_sorted_pair(s: Seq<ConfigData>, i: int, j: int)
    requires
        sorted_by_name(s),
        0 <= i <= j < s.len(),
    ensures
        lex_le(s[i].name, s[j].name),
    decreases j - i,
{
    if i == j {
        crate::text::lemma_lex_le_total(s[i].name, s[i].name);
    } else {
        lemma_sorted_pair(s, i, j - 1);
        assert(lex_le(s[j - 1].name, s[j].name));
        crate::text::lemma_lex_le_trans(s[i].name, s[j - 1].name, s[j].name);
    }
}

pub const CONFIGURATION_INTRO: &'static str =
    "<h1>Configuration</h1>\n<p>Data is stored at $XDG_CONFIG_HOME/tod.cfg. This defaults to: <code>~/.config/tod.cfg</code></p>\n<table>\n<tr><th>Name</th><th>Type</th><th>Default</th><th>Possible values</th><th>Description</th></tr>\n";

/// HTML for one catalog row: name, type, default, domain, description.
pub open spec fn config_row_html(c: ConfigData) -> Seq<char> {
    "<tr><td>"@ + c.name + "</td><td>"@ + c.data_type + "</td><td>"@ + c.default_value
        + "</td><td>"@ + c.possible_values + "</td><td>"@ + c.description + "</td></tr>\n"@
}

/// HTML for the catalog rows, one per record, in order.
pub open spec fn config_rows_html(s: Seq<ConfigData>) -> Seq<char>
    decreases s.len(),
{
    if s.len() == 0 {
        Seq::empty()
    } else {
        config_rows_html(s.drop_last()) + config_row_html(s.last())
    }
}

pub proof fn lemma_config_rows_html_push(s: Seq<ConfigData>, c: ConfigData)
    ensures
        config_rows_html(s.push(c)) == config_rows_html(s) + config_row_html(c),
{
    assert(s.push(c).drop_last() =~= s);
}

/// Body of the configuration page: the storage-location note and the full
/// catalog as a table.
pub open spec fn configuration_body(s: Seq<ConfigData>) -> Seq<char> {
    CONFIGURATION_INTRO@ + config_rows_html(s) + "</table>\n"@
}

/// The configuration page, exactly.
pub open spec fn configuration_html() -> Seq<char> {
    crate::render::page_html("Configuration"@, crate::nav_seq(), configuration_body(catalog()))
}

/// Renders the configuration page: the configuration template bound to the
/// "Configuration" title, the navigation, and the catalog.
pub fn configuration() -> (r: String)
    ensures
        r@ == configuration_html(),
{
    let context = crate::render::Context {
        title: "Configuration".to_owned(),
        navigation: crate::get_nav(),
        configuration: Some(get_config()),
    };
    proof {
        crate::render::lemma_template_names_distinct();
    }
    match crate::render::render("configuration", context) {
        Ok(page) => page,
        Err(_) => unreached(),
    }
}

} // verus!
