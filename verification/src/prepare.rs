//! Building the tool list and system prompt for one model call: router or
//! fallback listing, removal of sub-agent task tools, appending frontend
//! tools, deterministic ordering when the router is disabled, and the
//! toolshim rewrite.

use vstd::prelude::*;

use crate::text::{lemma_le_total, lemma_le_trans, spec_le, spec_starts_with, str_eq, str_le,
    str_starts_with};
use crate::toolshim::{modify_system_prompt_for_tool_json, spec_tool_json_section};
use crate::types::{ModelConfig, Tool};

verus! {

/// Name of the sub-agent execution tool, removed from a fallback listing
/// when the active model does not support sub-agent tools.
pub open spec fn spec_subagent_execute_task_tool_name() -> Seq<char> {
    "subagent__execute_task"@
}

/// Name prefix of dynamically generated task tools, removed together with
/// the sub-agent execution tool.
pub open spec fn spec_dynamic_task_tool_prefix() -> Seq<char> {
    "dynamic_task__"@
}

pub fn subagent_execute_task_tool_name() -> (r: &'static str)
    ensures
        r@ == spec_subagent_execute_task_tool_name(),
{
    "subagent__execute_task"
}

pub fn dynamic_task_tool_prefix() -> (r: &'static str)
    ensures
        r@ == spec_dynamic_task_tool_prefix(),
{
    "dynamic_task__"
}

/// A tool that only serves sub-agent task execution.
pub open spec fn spec_is_task_tool(t: Tool) -> bool {
    t.name@ == spec_subagent_execute_task_tool_name() || spec_starts_with(
        t.name@,
        spec_dynamic_task_tool_prefix(),
    )
}

/// The list with sub-agent task tools removed, order preserved.
pub open spec fn spec_without_task_tools(tools: Seq<Tool>) -> Seq<Tool>
    decreases tools.len(),
{
    if tools.len() == 0 {
        Seq::empty()
    } else {
        spec_without_task_tools(tools.drop_last()) + (if spec_is_task_tool(tools.last()) {
            Seq::<Tool>::empty()
        } else {
            seq![tools.last()]
        })
    }
}

fn is_task_tool(t: &Tool) -> (r: bool)
    ensures
        r == spec_is_task_tool(*t),
{
    str_eq(t.name.as_str(), subagent_execute_task_tool_name()) || str_starts_with(
        t.name.as_str(),
        dynamic_task_tool_prefix(),
    )
}

fn remove_task_tools(tools: Vec<Tool>) -> (r: Vec<Tool>)
    ensures
        r@ == spec_without_task_tools(tools@),
{
    let mut result: Vec<Tool> = Vec::new();
    let n = tools.len();
    let mut i: usize = 0;
    while i < n
        invariant
            n == tools@.len(),
            i <= n,
            result@ == spec_without_task_tools(tools@.take(i as int)),
        decreases n - i,
    {
        let keep = !is_task_tool(&tools[i]);
        proof {
            let post = tools@.take(i as int + 1);
            assert(post.drop_last() =~= tools@.take(i as int));
            assert(post.last() == tools@[i as int]);
            if keep {
                assert(spec_without_task_tools(post) =~= spec_without_task_tools(
                    tools@.take(i as int),
                ).push(tools@[i as int]));
            } else {
                assert(spec_without_task_tools(post) =~= spec_without_task_tools(
                    tools@.take(i as int),
                ));
            }
        }
        if keep {
            result.push(tools[i].clone());
        }
        i += 1;
    }
    proof {
        assert(tools@.take(n as int) =~= tools@);
    }
    result
}

/// The order tools are sorted by: ascending by name.
pub open spec fn tool_le(a: Tool, b: Tool) -> bool {
    spec_le(a.name@, b.name@)
}

/// `t` inserted into `s` before the first element whose name sorts strictly
/// after it; with equal names the earlier element keeps its place, so the
/// sort built from this insertion is stable.
pub open spec fn spec_insert_sorted(t: Tool, s: Seq<Tool>) -> Seq<Tool>
    decreases s.len(),
{
    if s.len() == 0 {
        seq![t]
    } else if tool_le(s[0], t) {
        seq![s[0]] + spec_insert_sorted(t, s.drop_first())
    } else {
        seq![t] + s
    }
}

/// The list sorted ascending by tool name, stably.
pub open spec fn spec_sort_tools(s: Seq<Tool>) -> Seq<Tool>
    decreases s.len(),
{
    if s.len() == 0 {
        s
    } else {
        spec_insert_sorted(s.last(), spec_sort_tools(s.drop_last()))
    }
}

/// Ascending by name, duplicates allowed.
pub open spec fn spec_tools_sorted(s: Seq<Tool>) -> bool {
    forall|i: int, j: int| 0 <= i < j < s.len() ==> tool_le(#[trigger] s[i], #[trigger] s[j])
}

proof fn lemma_insert_sorted_at(s: Seq<Tool>, t: Tool, j: int)
    requires
        0 <= j <= s.len(),
        forall|k: int| 0 <= k < j ==> tool_le(#[trigger] s[k], t),
        j < s.len() ==> !tool_le(s[j], t),
    ensures
        spec_insert_sorted(t, s) =~= s.take(j) + seq![t] + s.skip(j),
    decreases j,
{
    if j == 0 {
        assert(s.take(0) =~= Seq::<Tool>::empty());
        assert(s.skip(0) =~= s);
    } else {
        lemma_insert_sorted_at(s.drop_first(), t, j - 1);
        assert(s.take(j) =~= seq![s[0]] + s.drop_first().take(j - 1));
        assert(s.skip(j) =~= s.drop_first().skip(j - 1));
    }
}

/// Inserting adds exactly the inserted element.
proof fn lemma_insert_sorted_multiset(t: Tool, s: Seq<Tool>)
    ensures
        spec_insert_sorted(t, s).len() == s.len() + 1,
        spec_insert_sorted(t, s).to_multiset() =~= s.to_multiset().insert(t),
    decreases s.len(),
{
    broadcast use vstd::seq_lib::group_to_multiset_ensures;

    if s.len() == 0 {
        assert(spec_insert_sorted(t, s) =~= s.push(t));
    } else if tool_le(s[0], t) {
        lemma_insert_sorted_multiset(t, s.drop_first());
        let x = spec_insert_sorted(t, s.drop_first());
        assert(spec_insert_sorted(t, s) =~= x.insert(0, s[0]));
        assert(x.insert(0, s[0]).to_multiset() =~= x.to_multiset().insert(s[0]));
        assert(s =~= s.drop_first().insert(0, s[0]));
        assert(s.to_multiset() =~= s.drop_first().to_multiset().insert(s[0]));
    } else {
        assert(spec_insert_sorted(t, s) =~= s.insert(0, t));
        assert(s.insert(0, t).to_multiset() =~= s.to_multiset().insert(t));
    }
}

/// Inserting into a sorted list keeps it sorted.
proof fn lemma_insert_sorted_preserves_sorted(t: Tool, s: Seq<Tool>)
    requires
        spec_tools_sorted(s),
    ensures
        spec_tools_sorted(spec_insert_sorted(t, s)),
    decreases s.len(),
{
    broadcast use vstd::seq_lib::group_to_multiset_ensures;

    if s.len() == 0 {
    } else if tool_le(s[0], t) {
        assert(spec_tools_sorted(s.drop_first())) by {
            assert forall|i: int, j: int|
                0 <= i < j < s.drop_first().len() implies tool_le(
                #[trigger] s.drop_first()[i],
                #[trigger] s.drop_first()[j],
            ) by {
                assert(s.drop_first()[i] == s[i + 1]);
                assert(s.drop_first()[j] == s[j + 1]);
            }
        }
        lemma_insert_sorted_preserves_sorted(t, s.drop_first());
        lemma_insert_sorted_multiset(t, s.drop_first());
        let x = spec_insert_sorted(t, s.drop_first());
        let r = seq![s[0]] + x;
        assert forall|i: int, j: int| 0 <= i < j < r.len() implies tool_le(
            #[trigger] r[i],
            #[trigger] r[j],
        ) by {
            if i == 0 {
                let v = x[j - 1];
                assert(x.contains(v));
                assert(x.to_multiset().contains(v));
                if v == t {
                    assert(tool_le(s[0], v));
                } else {
                    assert(s.drop_first().to_multiset().contains(v));
                    assert(s.drop_first().contains(v));
                    let k = choose|k: int|
                        0 <= k < s.drop_first().len() && s.drop_first()[k] == v;
                    assert(s[k + 1] == v);
                    assert(tool_le(s[0], s[k + 1]));
                }
            } else {
                assert(r[i] == x[i - 1]);
                assert(r[j] == x[j - 1]);
            }
        }
    } else {
        lemma_le_total(s[0].name@, t.name@);
        let r = seq![t] + s;
        assert forall|i: int, j: int| 0 <= i < j < r.len() implies tool_le(
            #[trigger] r[i],
            #[trigger] r[j],
        ) by {
            if i == 0 {
                if j == 1 {
                    assert(r[j] == s[0]);
                } else {
                    assert(r[j] == s[j - 1]);
                    assert(tool_le(s[0], s[j - 1]));
                    lemma_le_trans(t.name@, s[0].name@, s[j - 1].name@);
                }
            } else {
                assert(r[i] == s[i - 1]);
                assert(r[j] == s[j - 1]);
            }
        }
    }
}

/// Sorting arranges the very tools it was given, ascending by name.
pub proof fn lemma_sort_tools_sorted(s: Seq<Tool>)
    ensures
        spec_tools_sorted(spec_sort_tools(s)),
        spec_sort_tools(s).len() == s.len(),
        spec_sort_tools(s).to_multiset() =~= s.to_multiset(),
    decreases s.len(),
{
    broadcast use vstd::seq_lib::group_to_multiset_ensures;

    if s.len() > 0 {
        lemma_sort_tools_sorted(s.drop_last());
        lemma_insert_sorted_preserves_sorted(s.last(), spec_sort_tools(s.drop_last()));
        lemma_insert_sorted_multiset(s.last(), spec_sort_tools(s.drop_last()));
        assert(s.drop_last().push(s.last()) =~= s);
        assert(s.drop_last().push(s.last()).to_multiset() =~= s.drop_last().to_multiset().insert(
            s.last(),
        ));
    }
}

fn insert_sorted(result: &mut Vec<Tool>, t: Tool)
    ensures
        final(result)@ == spec_insert_sorted(t, old(result)@),
{
    let mut j: usize = 0;
    loop
        invariant
            j <= result@.len(),
            result@ == old(result)@,
            forall|k: int| 0 <= k < j ==> tool_le(#[trigger] result@[k], t),
        ensures
            j <= result@.len(),
            result@ == old(result)@,
            forall|k: int| 0 <= k < j ==> tool_le(#[trigger] result@[k], t),
            j < result@.len() ==> !tool_le(result@[j as int], t),
        decreases result@.len() - j,
    {
        if j == result.len() {
            break ;
        }
        if !str_le(result[j].name.as_str(), t.name.as_str()) {
            break ;
        }
        j += 1;
    }
    proof {
        lemma_insert_sorted_at(result@, t, j as int);
    }
    result.insert(j, t);
    proof {
        assert(final(result)@ =~= old(result)@.take(j as int) + seq![t] + old(result)@.skip(
            j as int,
        ));
    }
}

/// Sorts a tool list ascending by name, stably.
pub fn sort_tools_by_name(tools: Vec<Tool>) -> (r: Vec<Tool>)
    ensures
        r@ == spec_sort_tools(tools@),
{
    let mut result: Vec<Tool> = Vec::new();
    let n = tools.len();
    let mut i: usize = 0;
    while i < n
        invariant
            n == tools@.len(),
            i <= n,
            result@ == spec_sort_tools(tools@.take(i as int)),
        decreases n - i,
    {
        proof {
            let post = tools@.take(i as int + 1);
            assert(post.drop_last() =~= tools@.take(i as int));
            assert(post.last() == tools@[i as int]);
        }
        insert_sorted(&mut result, tools[i].clone());
        i += 1;
    }
    proof {
        assert(tools@.take(n as int) =~= tools@);
    }
    result
}

/// The tool list before merging: the router's answer, or — router disabled
/// and the router's answer empty — the unrestricted listing, stripped of
/// sub-agent task tools when the model does not support them.
pub open spec fn spec_base_tools(
    router_enabled: bool,
    router_tools: Seq<Tool>,
    fallback_tools: Seq<Tool>,
    subagents_supported: bool,
) -> Seq<Tool> {
    if !router_enabled && router_tools.len() == 0 {
        if subagents_supported {
            fallback_tools
        } else {
            spec_without_task_tools(fallback_tools)
        }
    } else {
        router_tools
    }
}

/// The full prepared list: frontend tools appended without dedup, and the
/// merge sorted by name exactly when the router is disabled.
pub open spec fn spec_prepared_tools(
    router_enabled: bool,
    router_tools: Seq<Tool>,
    fallback_tools: Seq<Tool>,
    subagents_supported: bool,
    frontend_tools: Seq<Tool>,
) -> Seq<Tool> {
    let merged = spec_base_tools(router_enabled, router_tools, fallback_tools, subagents_supported)
        + frontend_tools;
    if router_enabled {
        merged
    } else {
        spec_sort_tools(merged)
    }
}

/// With the router disabled the prepared list is the merged list arranged
/// ascending by name: no tool is added, lost or duplicated by the ordering.
pub proof fn lemma_prepared_tools_router_disabled(
    router_tools: Seq<Tool>,
    fallback_tools: Seq<Tool>,
    subagents_supported: bool,
    frontend_tools: Seq<Tool>,
)
    ensures
        ({
            let merged = spec_base_tools(false, router_tools, fallback_tools, subagents_supported)
                + frontend_tools;
            let prepared = spec_prepared_tools(
                false,
                router_tools,
                fallback_tools,
                subagents_supported,
                frontend_tools,
            );
            &&& spec_tools_sorted(prepared)
            &&& prepared.len() == merged.len()
            &&& prepared.to_multiset() =~= merged.to_multiset()
        }),
{
    lemma_sort_tools_sorted(
        spec_base_tools(false, router_tools, fallback_tools, subagents_supported) + frontend_tools,
    );
}

/// Builds the tool list and system prompt for one model call.
///
/// `router_tools` is the router-aware listing, `fallback_tools` the
/// unrestricted one (consulted only when the router is disabled and the
/// router-aware listing came back empty), `subagents_supported` the external
/// capability check for the active model, and `base_system_prompt` the
/// prompt builder's output. With toolshim off the prepared list is returned
/// as the provider's structured tools and the prompt is untouched; with
/// toolshim on the structured list is cleared, the prepared list is
/// snapshotted, and the schema section is appended to the prompt.
pub fn prepare_tools_and_prompt(
    router_enabled: bool,
    router_tools: Vec<Tool>,
    fallback_tools: Vec<Tool>,
    subagents_supported: bool,
    frontend_tools: &Vec<Tool>,
    base_system_prompt: String,
    config: &ModelConfig,
) -> (r: (Vec<Tool>, Vec<Tool>, String))
    ensures
        ({
            let prepared = spec_prepared_tools(
                router_enabled,
                router_tools@,
                fallback_tools@,
                subagents_supported,
                frontend_tools@,
            );
            if config.toolshim {
                &&& r.0@ == Seq::<Tool>::empty()
                &&& r.1@ == prepared
                &&& r.2@ == base_system_prompt@ + spec_tool_json_section(prepared)
            } else {
                &&& r.0@ == prepared
                &&& r.1@ == Seq::<Tool>::empty()
                &&& r.2@ == base_system_prompt@
            }
        }),
{
    let mut tools = if !router_enabled && router_tools.len() == 0 {
        if subagents_supported {
            fallback_tools
        } else {
            remove_task_tools(fallback_tools)
        }
    } else {
        router_tools
    };

    let ghost base = tools@;
    let n = frontend_tools.len();
    let mut k: usize = 0;
    proof {
        assert(base + frontend_tools@.take(0) =~= base);
    }
    while k < n
        invariant
            n == frontend_tools@.len(),
            k <= n,
            tools@ == base + frontend_tools@.take(k as int),
        decreases n - k,
    {
        tools.push(frontend_tools[k].clone());
        proof {
            assert(tools@ =~= base + frontend_tools@.take(k as int + 1));
        }
        k += 1;
    }
    proof {
        assert(frontend_tools@.take(n as int) =~= frontend_tools@);
    }

    if !router_enabled {
        tools = sort_tools_by_name(tools);
    }

    if config.toolshim {
        let system_prompt = modify_system_prompt_for_tool_json(
            base_system_prompt.as_str(),
            &tools,
        );
        (Vec::new(), tools, system_prompt)
    } else {
        (tools, Vec::new(), base_system_prompt)
    }
}

} // verus!
