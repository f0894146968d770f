//! Whether the workers of a mesh-wide turn think before they answer.

use crate::json::{Json, bool_member, member, object_member, text_member, unsigned_member};
use crate::text::{same_text, texts};
use vstd::prelude::*;

verus! {

/// What was said last, where something was.
pub open spec fn later(earlier: Option<bool>, latest: Option<bool>) -> Option<bool> {
    if latest is Some {
        latest
    } else {
        earlier
    }
}

/// What the `reasoning` object of a request asks for.
pub open spec fn reasoning_asks(reasoning: Json) -> Option<bool> {
    if bool_member(reasoning, "enabled"@) == Some(false) || text_member(reasoning, "effort"@)
        == Some("none"@) || unsigned_member(reasoning, "max_tokens"@) == Some(0u64) {
        Some(false)
    } else if bool_member(reasoning, "enabled"@) == Some(true) || member(reasoning, "effort"@)
        is Some || member(reasoning, "max_tokens"@) is Some {
        Some(true)
    } else {
        None
    }
}

/// What the last of the names that stands for a truth value says.
pub open spec fn aliases_ask(document: Json, aliases: Seq<Seq<char>>) -> Option<bool>
    decreases aliases.len(),
{
    if aliases.len() == 0 {
        None
    } else {
        later(
            aliases_ask(document, aliases.drop_last()),
            bool_member(document, aliases.last()),
        )
    }
}

/// What a request asks for. Of several wishes the one that is read last
/// counts: the `reasoning` object, the effort, the names, a budget of zero,
/// and the arguments of the chat template.
pub open spec fn request_asks(body: Json, aliases: Seq<Seq<char>>) -> Option<bool> {
    let reasoning = match object_member(body, "reasoning"@) {
        Some(reasoning) => reasoning_asks(reasoning),
        None => None,
    };
    let effort = match text_member(body, "reasoning_effort"@) {
        Some(effort) => Some(effort != "none"@),
        None => None,
    };
    let budget = if unsigned_member(body, "thinking_budget"@) == Some(0u64) {
        Some(false)
    } else {
        None
    };
    let template = match object_member(body, "chat_template_kwargs"@) {
        Some(kwargs) => aliases_ask(kwargs, aliases),
        None => None,
    };
    later(later(later(later(reasoning, effort), aliases_ask(body, aliases)), budget), template)
}

fn reasoning_wish(reasoning: &Json) -> (wish: Option<bool>)
    ensures
        wish == reasoning_asks(*reasoning),
{
    let enabled = reasoning.get_bool("enabled");
    let effort_off = match reasoning.get_text("effort") {
        Some(effort) => same_text(effort.as_str(), "none"),
        None => false,
    };
    let tokens = reasoning.get_unsigned("max_tokens");
    let off = matches!(enabled, Some(false)) || effort_off || matches!(tokens, Some(0));
    let on = matches!(enabled, Some(true)) || reasoning.get("effort").is_some() || reasoning.get(
        "max_tokens",
    ).is_some();
    if off {
        Some(false)
    } else if on {
        Some(true)
    } else {
        None
    }
}

fn aliases_wish(document: &Json, aliases: &Vec<String>) -> (wish: Option<bool>)
    ensures
        wish == aliases_ask(*document, texts(aliases@)),
{
    let mut wish: Option<bool> = None;
    let mut i: usize = 0;
    let ghost all = texts(aliases@);
    while i < aliases.len()
        invariant
            i <= aliases@.len(),
            all == texts(aliases@),
            wish == aliases_ask(*document, all.take(i as int)),
        decreases aliases@.len() - i,
    {
        proof {
            let now = all.take(i + 1);
            assert(now.drop_last() =~= all.take(i as int));
            assert(now.last() == aliases@[i as int]@);
        }
        let said = document.get_bool(aliases[i].as_str());
        if said.is_some() {
            wish = said;
        }
        i += 1;
    }
    assert(all.take(i as int) =~= all);
    wish
}

/// What a request asks for, if it asks for anything. `aliases` are the names
/// that stand for thinking or not.
pub fn extract_enable_thinking_override(body: &Json, aliases: &Vec<String>) -> (wish: Option<bool>)
    ensures
        wish == request_asks(*body, texts(aliases@)),
{
    let mut wish: Option<bool> = None;
    if let Some(reasoning) = body.get_object("reasoning") {
        wish = reasoning_wish(reasoning);
    }
    if let Some(effort) = body.get_text("reasoning_effort") {
        wish = Some(!same_text(effort.as_str(), "none"));
    }
    let named = aliases_wish(body, aliases);
    if named.is_some() {
        wish = named;
    }
    if matches!(body.get_unsigned("thinking_budget"), Some(0)) {
        wish = Some(false);
    }
    if let Some(kwargs) = body.get_object("chat_template_kwargs") {
        let template = aliases_wish(kwargs, aliases);
        if template.is_some() {
            wish = template;
        }
    }
    wish
}

/// Whether workers think: only where the request asks for it.
pub open spec fn workers_think(body: Json, aliases: Seq<Seq<char>>) -> Option<bool> {
    match request_asks(body, aliases) {
        Some(wish) => Some(wish),
        None => Some(false),
    }
}

/// Whether workers think: only where the request asks for it.
pub fn effective_enable_thinking_for_moa(body: &Json, aliases: &Vec<String>) -> (thinking: Option<
    bool,
>)
    ensures
        thinking == workers_think(*body, texts(aliases@)),
        thinking == Some(request_asks(*body, texts(aliases@)) == Some(true)),
{
    match extract_enable_thinking_override(body, aliases) {
        Some(wish) => Some(wish),
        None => Some(false),
    }
}

proof fn lemma_no_alias_asks(document: Json, aliases: Seq<Seq<char>>)
    requires
        !(document is Object),
    ensures
        aliases_ask(document, aliases) is None,
    decreases aliases.len(),
{
    if aliases.len() > 0 {
        lemma_no_alias_asks(document, aliases.drop_last());
    }
}

/// A request that is no object asks for nothing.
pub proof fn law_only_objects_ask(body: Json, aliases: Seq<Seq<char>>)
    requires
        !(body is Object),
    ensures
        request_asks(body, aliases) is None,
{
    lemma_no_alias_asks(body, aliases);
}

/// What the arguments of the chat template say counts, whatever else a request
/// holds.
pub proof fn law_template_arguments_win(body: Json, aliases: Seq<Seq<char>>, kwargs: Json)
    requires
        object_member(body, "chat_template_kwargs"@) == Some(kwargs),
        aliases_ask(kwargs, aliases) is Some,
    ensures
        request_asks(body, aliases) == aliases_ask(kwargs, aliases),
{
}

/// Whether none of the names stands for a truth value in a document.
pub open spec fn no_alias_speaks(document: Json, aliases: Seq<Seq<char>>) -> bool {
    forall|k: int|
        0 <= k < aliases.len() ==> !(member(document, #[trigger] aliases[k]) matches Some(
            found,
        ) && found is Bool)
}

/// Whether the arguments of the chat template say nothing.
pub open spec fn template_is_silent(body: Json, aliases: Seq<Seq<char>>) -> bool {
    match member(body, "chat_template_kwargs"@) {
        Some(kwargs) => kwargs is Object ==> no_alias_speaks(kwargs, aliases),
        None => true,
    }
}

proof fn lemma_silent_aliases(document: Json, aliases: Seq<Seq<char>>)
    requires
        no_alias_speaks(document, aliases),
    ensures
        aliases_ask(document, aliases) is None,
    decreases aliases.len(),
{
    if aliases.len() > 0 {
        assert forall|k: int| 0 <= k < aliases.drop_last().len() implies !(member(
            document,
            #[trigger] aliases.drop_last()[k],
        ) matches Some(found) && found is Bool) by {
            assert(aliases.drop_last()[k] == aliases[k]);
        }
        lemma_silent_aliases(document, aliases.drop_last());
        assert(aliases.last() == aliases[aliases.len() - 1]);
    }
}

proof fn lemma_last_alias(document: Json, aliases: Seq<Seq<char>>, k: int, wish: bool)
    requires
        0 <= k < aliases.len(),
        member(document, aliases[k]) == Some(Json::Bool(wish)),
        no_alias_speaks(document, aliases.skip(k + 1)),
    ensures
        aliases_ask(document, aliases) == Some(wish),
    decreases aliases.len(),
{
    if k < aliases.len() - 1 {
        let fewer = aliases.drop_last();
        let last = aliases.skip(k + 1)[aliases.len() - k - 2];
        assert(last == aliases.last());
        assert forall|i: int| 0 <= i < fewer.skip(k + 1).len() implies !(member(
            document,
            #[trigger] fewer.skip(k + 1)[i],
        ) matches Some(found) && found is Bool) by {
            assert(fewer.skip(k + 1)[i] == aliases.skip(k + 1)[i]);
        }
        lemma_last_alias(document, fewer, k, wish);
    }
}

/// The last of the chat template's arguments that says whether to think
/// decides, whatever else a request holds.
pub proof fn law_last_template_argument_decides(
    body: Json,
    aliases: Seq<Seq<char>>,
    kwargs: Json,
    k: int,
    wish: bool,
)
    requires
        member(body, "chat_template_kwargs"@) == Some(kwargs),
        kwargs is Object,
        0 <= k < aliases.len(),
        member(kwargs, aliases[k]) == Some(Json::Bool(wish)),
        no_alias_speaks(kwargs, aliases.skip(k + 1)),
    ensures
        request_asks(body, aliases) == Some(wish),
{
    lemma_last_alias(kwargs, aliases, k, wish);
}

/// A budget of no tokens turns thinking off, unless the chat template's
/// arguments say otherwise.
pub proof fn law_empty_budget_turns_thinking_off(body: Json, aliases: Seq<Seq<char>>)
    requires
        member(body, "thinking_budget"@) == Some(Json::Unsigned(0)),
        template_is_silent(body, aliases),
    ensures
        request_asks(body, aliases) == Some(false),
{
    if let Some(kwargs) = object_member(body, "chat_template_kwargs"@) {
        lemma_silent_aliases(kwargs, aliases);
    }
}

/// The last name with a truth value decides, unless there is a budget of no
/// tokens or the chat template's arguments say otherwise.
pub proof fn law_last_name_decides(
    body: Json,
    aliases: Seq<Seq<char>>,
    k: int,
    wish: bool,
)
    requires
        0 <= k < aliases.len(),
        member(body, aliases[k]) == Some(Json::Bool(wish)),
        no_alias_speaks(body, aliases.skip(k + 1)),
        member(body, "thinking_budget"@) != Some(Json::Unsigned(0)),
        template_is_silent(body, aliases),
    ensures
        request_asks(body, aliases) == Some(wish),
{
    lemma_last_alias(body, aliases, k, wish);
    if let Some(kwargs) = object_member(body, "chat_template_kwargs"@) {
        lemma_silent_aliases(kwargs, aliases);
    }
}

/// An effort decides where nothing that is read later does: none of it turns
/// thinking off, any other turns it on.
pub proof fn law_effort_decides(body: Json, aliases: Seq<Seq<char>>, effort: String)
    requires
        member(body, "reasoning_effort"@) == Some(Json::Str(effort)),
        no_alias_speaks(body, aliases),
        member(body, "thinking_budget"@) != Some(Json::Unsigned(0)),
        template_is_silent(body, aliases),
    ensures
        request_asks(body, aliases) == Some(effort@ != "none"@),
{
    lemma_silent_aliases(body, aliases);
    if let Some(kwargs) = object_member(body, "chat_template_kwargs"@) {
        lemma_silent_aliases(kwargs, aliases);
    }
}

/// Whether a request says nothing outside its `reasoning` object.
pub open spec fn only_reasoning_speaks(body: Json, aliases: Seq<Seq<char>>) -> bool {
    &&& !(member(body, "reasoning_effort"@) matches Some(effort) && effort is Str)
    &&& no_alias_speaks(body, aliases)
    &&& member(body, "thinking_budget"@) != Some(Json::Unsigned(0))
    &&& template_is_silent(body, aliases)
}

/// Where only the `reasoning` object speaks, each of its members decides when it
/// stands alone: the switch as it is set, the effort by whether it is none of
/// it, the number of tokens by whether it is zero. An object with none of the
/// three asks for nothing.
pub proof fn law_reasoning_object_decides(
    body: Json,
    aliases: Seq<Seq<char>>,
    reasoning: Json,
)
    requires
        only_reasoning_speaks(body, aliases),
        member(body, "reasoning"@) == Some(reasoning),
        reasoning is Object,
    ensures
        ({
            let enabled = member(reasoning, "enabled"@);
            let effort = member(reasoning, "effort"@);
            let tokens = member(reasoning, "max_tokens"@);
            let wish = request_asks(body, aliases);
            &&& effort is None && tokens is None ==> (enabled matches Some(Json::Bool(on)) ==> wish
                == Some(on))
            &&& enabled is None && tokens is None ==> (effort matches Some(found) ==> wish == Some(
                !(found matches Json::Str(text) && text@ == "none"@),
            ))
            &&& enabled is None && effort is None ==> (tokens matches Some(found) ==> wish == Some(
                found != Json::Unsigned(0),
            ))
            &&& !(enabled matches Some(found) && found is Bool) && effort is None && tokens is None
                ==> wish is None
        }),
{
    lemma_silent_aliases(body, aliases);
    if let Some(kwargs) = object_member(body, "chat_template_kwargs"@) {
        lemma_silent_aliases(kwargs, aliases);
    }
}

/// Where the members of the `reasoning` object disagree, one that turns thinking
/// off wins, and else one that turns it on.
pub proof fn law_reasoning_that_turns_off_wins(
    body: Json,
    aliases: Seq<Seq<char>>,
    reasoning: Json,
)
    requires
        only_reasoning_speaks(body, aliases),
        member(body, "reasoning"@) == Some(reasoning),
        reasoning is Object,
    ensures
        ({
            let enabled = member(reasoning, "enabled"@);
            let effort = member(reasoning, "effort"@);
            let tokens = member(reasoning, "max_tokens"@);
            let wish = request_asks(body, aliases);
            let off = enabled == Some(Json::Bool(false)) || (effort matches Some(Json::Str(text))
                && text@ == "none"@) || tokens == Some(Json::Unsigned(0));
            &&& off ==> wish == Some(false)
            &&& !off && enabled == Some(Json::Bool(true)) ==> wish == Some(true)
            &&& !off && (effort is Some || tokens is Some) ==> wish == Some(true)
        }),
{
    lemma_silent_aliases(body, aliases);
    if let Some(kwargs) = object_member(body, "chat_template_kwargs"@) {
        lemma_silent_aliases(kwargs, aliases);
    }
}

/// A request that holds none of what is read asks for nothing.
pub proof fn law_silent_request_asks_for_nothing(body: Json, aliases: Seq<Seq<char>>)
    requires
        only_reasoning_speaks(body, aliases),
        !(member(body, "reasoning"@) matches Some(reasoning) && reasoning is Object),
    ensures
        request_asks(body, aliases) is None,
{
    lemma_silent_aliases(body, aliases);
    if let Some(kwargs) = object_member(body, "chat_template_kwargs"@) {
        lemma_silent_aliases(kwargs, aliases);
    }
}

/// Workers think exactly where the request asks for it, and it is always said
/// whether they do.
pub proof fn law_workers_think_only_when_asked(body: Json, aliases: Seq<Seq<char>>)
    ensures
        request_asks(body, aliases) == Some(true) ==> workers_think(body, aliases) == Some(true),
        request_asks(body, aliases) != Some(true) ==> workers_think(body, aliases) == Some(false),
{
}

} // verus!
