//! What the web interface answers.

use vstd::prelude::*;

use crate::client::{BotClient, ClientView};
use crate::config::Config;
use crate::json::{
    elements, lemma_json_view, member_from, members_of, parse_json, parsed_json, text_array, Json, JsonView,
    ObjectBuilder,
};
use crate::routing::{input_route, route_input, Route, RouteView};
use crate::scoreboard::{first_purse, opt_text};
use crate::text::{plus, texts, trim, trimmed};

verus! {

/// A purse that may not be known.
pub open spec fn purse_json(purse: Option<u64>) -> JsonView {
    match purse {
        Some(n) => JsonView::Unsigned(n),
        None => JsonView::Null,
    }
}

/// The telemetry of a client in this state.
pub open spec fn status_json(
    s: ClientView,
    queue_depth: u64,
    uptime_secs: u64,
    player: Seq<char>,
    ah_flips: bool,
    bazaar_flips: bool,
) -> JsonView {
    JsonView::Object(
        seq![
            ("state"@, JsonView::Text(s.bot_state.reported_name())),
            ("allowsCommands"@, JsonView::Bool(s.bot_state.takes_commands())),
            ("purse"@, purse_json(first_purse(s.scoreboard.lines(), 0))),
            ("queueDepth"@, JsonView::Unsigned(queue_depth)),
            ("scoreboard"@, text_array(s.scoreboard.lines())),
            ("uptimeSecs"@, JsonView::Unsigned(uptime_secs)),
            ("player"@, JsonView::Text(player)),
            ("ahFlips"@, JsonView::Bool(ah_flips)),
            ("bazaarFlips"@, JsonView::Bool(bazaar_flips)),
        ],
    )
}

/// `GET /api/status` — core bot telemetry for the dashboard header cards.
pub fn status(
    bot: &BotClient,
    queue_depth: usize,
    uptime_secs: u64,
    player: &str,
    config: &Config,
) -> (r: Json)
    ensures
        r@ == status_json(
            bot.handler@,
            queue_depth as u64,
            uptime_secs,
            player@,
            config.enable_ah_flips,
            config.enable_bazaar_flips,
        ),
{
    let bot_state = bot.state();
    let lines = bot.get_scoreboard_lines();
    let purse = match bot.get_purse() {
        Some(n) => Json::Unsigned(n),
        None => Json::Null,
    };
    let object = ObjectBuilder::new().put("state", Json::text(bot_state.name())).put(
        "allowsCommands",
        Json::Bool(bot_state.allows_commands()),
    ).put("purse", purse).put("queueDepth", Json::Unsigned(queue_depth as u64)).put(
        "scoreboard",
        Json::texts(&lines),
    ).put("uptimeSecs", Json::Unsigned(uptime_secs)).put("player", Json::text(player)).put(
        "ahFlips",
        Json::Bool(config.enable_ah_flips),
    ).put("bazaarFlips", Json::Bool(config.enable_bazaar_flips));
    proof {
        assert(members_of(object.fields@) =~= seq![
            ("state"@, JsonView::Text(bot.handler@.bot_state.reported_name())),
            ("allowsCommands"@, JsonView::Bool(bot.handler@.bot_state.takes_commands())),
            ("purse"@, purse_json(first_purse(bot.handler@.scoreboard.lines(), 0))),
            ("queueDepth"@, JsonView::Unsigned(queue_depth as u64)),
            ("scoreboard"@, text_array(bot.handler@.scoreboard.lines())),
            ("uptimeSecs"@, JsonView::Unsigned(uptime_secs)),
            ("player"@, JsonView::Text(player@)),
            ("ahFlips"@, JsonView::Bool(config.enable_ah_flips)),
            ("bazaarFlips"@, JsonView::Bool(config.enable_bazaar_flips)),
        ]);
    }
    object.done()
}

/// The answer that holds one value.
pub open spec fn answer_with(key: Seq<char>, value: JsonView) -> JsonView {
    JsonView::Object(seq![(key, value)])
}

/// The answer that holds one value.
fn make_answer(key: &str, value: Json) -> (r: Json)
    ensures
        r@ == answer_with(key@, value@),
{
    let object = ObjectBuilder::new().put(key, value);
    proof {
        assert(members_of(object.fields@) =~= seq![(key@, value@)]);
    }
    object.done()
}

/// The answer with the inventory that was read from the cache, or null where none was.
pub fn inventory_answer(parsed: Option<Json>) -> (r: Json)
    ensures
        r@ == answer_with(
            "inventory"@,
            match parsed {
                Some(value) => value@,
                None => JsonView::Null,
            },
        ),
{
    let value = match parsed {
        Some(value) => value,
        None => Json::Null,
    };
    make_answer("inventory", value)
}

/// The inventory in the cache: null where there is none, or where it is no JSON.
pub open spec fn cached_inventory(cached: Option<Seq<char>>) -> JsonView {
    match cached {
        Some(text) => match parsed_json(text) {
            Some(value) => value,
            None => JsonView::Null,
        },
        None => JsonView::Null,
    }
}

/// `GET /api/inventory` — cached player inventory JSON. The cache holds JSON text: it is read, so
/// that it is not encoded twice.
pub fn inventory(cached: &Option<String>) -> (r: Json)
    ensures
        r@ == answer_with("inventory"@, cached_inventory(opt_text(*cached))),
{
    let parsed = match cached {
        Some(text) => parse_json(text.as_str()),
        None => None,
    };
    inventory_answer(parsed)
}

/// `GET /api/events` — return the recent event log snapshot.
pub fn events(log: Vec<Json>) -> (r: Json)
    ensures
        r@ == answer_with("events"@, JsonView::Array(elements(log@))),
{
    let list = Json::Array(log);
    proof {
        lemma_json_view(list);
    }
    make_answer("events", list)
}

/// Body for `POST /api/command`.
#[derive(Debug, PartialEq)]
pub struct CommandBody {
    pub command: String,
}

/// What is done about a command.
#[derive(Debug, PartialEq)]
pub enum WebCommand {
    /// Nothing: this is the answer.
    Answer(Json),
    /// The command goes its way. If it does, it is logged, as given here, and answered.
    Run { route: Route, log_entry: String },
}

/// The answer to a command that was not carried out.
pub open spec fn refusal(reason: Seq<char>) -> JsonView {
    JsonView::Object(seq![("ok"@, JsonView::Bool(false)), ("error"@, JsonView::Text(reason))])
}

/// The answer to a command that was not carried out.
fn make_refusal(reason: &str) -> (r: Json)
    ensures
        r@ == refusal(reason@),
{
    let object = ObjectBuilder::new().put("ok", Json::Bool(false)).put("error", Json::text(reason));
    proof {
        assert(members_of(object.fields@) =~= refusal(reason@)->Object_0);
    }
    object.done()
}

/// Where a command goes and how it is logged, or the answer where there is nothing in it.
pub open spec fn web_command(command: Seq<char>) -> Result<(RouteView, Seq<char>), JsonView> {
    if trimmed(command).len() == 0 {
        Err(refusal("empty command"@))
    } else {
        Ok((input_route(command), "[Web] "@ + trimmed(command)))
    }
}

/// `POST /api/command` — send a command (same logic as the console handler). A command with nothing
/// in it is refused.
pub fn send_command(body: &CommandBody) -> (r: WebCommand)
    ensures
        match web_command(body.command@) {
            Ok((sent, logged)) => r matches WebCommand::Run { route, log_entry } && route@ == sent
                && log_entry@ == logged,
            Err(refused) => r matches WebCommand::Answer(answer) && answer@ == refused,
        },
{
    let line = trim(body.command.as_str());
    if line.as_str().is_empty() {
        WebCommand::Answer(make_refusal("empty command"))
    } else {
        WebCommand::Run {
            route: route_input(body.command.as_str()),
            log_entry: plus("[Web] ".to_owned(), line.as_str()),
        }
    }
}

/// The answer to a command that went its way, given whether it could be sent.
pub fn command_answer(sent: &Result<(), String>) -> (r: Json)
    ensures
        r@ == match sent {
            Ok(()) => answer_with("ok"@, JsonView::Bool(true)),
            Err(reason) => refusal(reason@),
        },
{
    match sent {
        Ok(()) => make_answer("ok", Json::Bool(true)),
        Err(reason) => make_refusal(reason.as_str()),
    }
}

/// The telemetry tells the state and whether it takes commands, the purse as the scoreboard shows it,
/// or null, the lines of the scoreboard, how many commands wait, how long the bot has run, who plays
/// and which flips are enabled.
#[verifier::spinoff_prover]
pub proof fn law_telemetry_tells_what_is_known(
    s: ClientView,
    queue_depth: u64,
    uptime_secs: u64,
    player: Seq<char>,
    ah_flips: bool,
    bazaar_flips: bool,
)
    ensures
        ({
            let told = status_json(s, queue_depth, uptime_secs, player, ah_flips, bazaar_flips);
            &&& told.get("state"@) == Some(JsonView::Text(s.bot_state.reported_name()))
            &&& told.get("allowsCommands"@) == Some(JsonView::Bool(s.bot_state.takes_commands()))
            &&& told.get("purse"@) == Some(
                match first_purse(s.scoreboard.lines(), 0) {
                    Some(n) => JsonView::Unsigned(n),
                    None => JsonView::Null,
                },
            )
            &&& told.get("queueDepth"@) == Some(JsonView::Unsigned(queue_depth))
            &&& told.get("scoreboard"@) == Some(text_array(s.scoreboard.lines()))
            &&& told.get("uptimeSecs"@) == Some(JsonView::Unsigned(uptime_secs))
            &&& told.get("player"@) == Some(JsonView::Text(player))
            &&& told.get("ahFlips"@) == Some(JsonView::Bool(ah_flips))
            &&& told.get("bazaarFlips"@) == Some(JsonView::Bool(bazaar_flips))
        }),
{
    reveal_with_fuel(member_from, 10);
    reveal_strlit("state");
    reveal_strlit("allowsCommands");
    reveal_strlit("purse");
    reveal_strlit("queueDepth");
    reveal_strlit("scoreboard");
    reveal_strlit("uptimeSecs");
    reveal_strlit("player");
    reveal_strlit("ahFlips");
    reveal_strlit("bazaarFlips");
    assert("state"@.len() == 5 && "allowsCommands"@.len() == 14 && "purse"@.len() == 5
        && "queueDepth"@.len() == 10 && "scoreboard"@.len() == 10 && "uptimeSecs"@.len() == 10
        && "player"@.len() == 6 && "ahFlips"@.len() == 7 && "bazaarFlips"@.len() == 11);
    assert("state"@[0] == 's' && "purse"@[0] == 'p' && "queueDepth"@[0] == 'q' && "scoreboard"@[0]
        == 's' && "uptimeSecs"@[0] == 'u');
}

/// A command with nothing in it is refused, with the reason; any other goes where the console would
/// send it, and is logged as it was written, without the white space around it.
pub proof fn law_web_command_goes_the_consoles_way(command: Seq<char>, reason: Seq<char>)
    ensures
        trimmed(command).len() == 0 ==> {
            &&& web_command(command) matches Err(answer) && answer.get("ok"@) == Some(
                JsonView::Bool(false),
            ) && answer.get("error"@) == Some(JsonView::Text("empty command"@))
        },
        trimmed(command).len() > 0 ==> web_command(command) == Ok::<
            (RouteView, Seq<char>),
            JsonView,
        >((input_route(command), "[Web] "@ + trimmed(command))),
        refusal(reason).get("ok"@) == Some(JsonView::Bool(false)),
        refusal(reason).get("error"@) == Some(JsonView::Text(reason)),
        answer_with("ok"@, JsonView::Bool(true)).get("ok"@) == Some(JsonView::Bool(true)),
{
    reveal_with_fuel(member_from, 3);
    reveal_strlit("ok");
    reveal_strlit("error");
    assert("ok"@.len() != "error"@.len());
}

/// The inventory is answered as the value that its JSON text writes, and as null where there is none
/// or it writes none.
pub proof fn law_inventory_is_answered_as_a_value(text: Seq<char>, value: JsonView)
    ensures
        parsed_json(text) == Some(value) ==> cached_inventory(Some(text)) == value,
        parsed_json(text) is None ==> cached_inventory(Some(text)) is Null,
        cached_inventory(None) is Null,
        answer_with("inventory"@, value).get("inventory"@) == Some(value),
        answer_with("events"@, value).get("events"@) == Some(value),
{
    reveal_with_fuel(member_from, 2);
}

} // verus!
