//! Where the commands go that are typed at the console, sent to the web interface or sent by the
//! flip service.

use vstd::prelude::*;

use crate::inventory::{make_message, message_contents, service_message};
use crate::json::{json_text, parsed_json, render_json, Json, JsonView};
use crate::letters::{lowercase, to_lowercase};
use crate::text::{
    begins_with, is_space, is_word, join_from, joined, law_joined_words_are_found_again, same_text,
    split_whitespace, starts_with, texts, trim, trimmed, trimmed_start, words,
};
use crate::types::{CommandPriority, CommandType, CommandView, QueuedCommand, QueuedView};

verus! {

/// Where a line of input goes.
#[derive(Debug, PartialEq)]
pub enum Route {
    /// Nowhere: there is nothing in it.
    Nothing,
    /// The state of the command queue is shown.
    ShowQueue,
    /// The command queue is cleared.
    ClearQueue,
    /// This message goes to the flip service.
    Send(String),
    /// This command goes into the command queue.
    Queue(QueuedCommand),
}

/// Where a line of input goes, as the contracts speak of it.
#[verifier::ext_equal]
pub enum RouteView {
    Nothing,
    ShowQueue,
    ClearQueue,
    Send(Seq<char>),
    Queue(QueuedView),
}

impl View for Route {
    type V = RouteView;

    open spec fn view(&self) -> RouteView {
        match self {
            Route::Nothing => RouteView::Nothing,
            Route::ShowQueue => RouteView::ShowQueue,
            Route::ClearQueue => RouteView::ClearQueue,
            Route::Send(message) => RouteView::Send(message@),
            Route::Queue(command) => RouteView::Queue(command@),
        }
    }
}

/// A message to the flip service whose data is a text, written as JSON once more.
pub open spec fn text_message(kind: Seq<char>, text: Seq<char>) -> Seq<char> {
    service_message(kind, json_text(JsonView::Text(text)))
}

/// A message to the flip service whose data is a text, written as JSON once more: whoever reads the
/// message, and then its data, finds the text.
pub fn make_text_message(kind: &str, text: &str) -> (r: String)
    ensures
        r@ == text_message(kind@, text@),
        parsed_json(r@) == Some(message_contents(kind@, json_text(JsonView::Text(text@)))),
        parsed_json(json_text(JsonView::Text(text@))) == Some(JsonView::Text(text@)),
{
    let data = render_json(&Json::text(text));
    make_message(kind, data.as_str())
}

/// A chat message for the game, ahead of other commands and not to be interrupted.
pub open spec fn chat_command(message: Seq<char>) -> QueuedView {
    QueuedView {
        command: CommandView::SendChat(message),
        priority: CommandPriority::High,
        interruptible: false,
    }
}

/// A chat message for the game, ahead of other commands and not to be interrupted.
pub fn queue_chat(message: &str) -> (r: QueuedCommand)
    ensures
        r@ == chat_command(message@),
{
    QueuedCommand {
        command_type: CommandType::SendChat { message: message.to_owned() },
        priority: CommandPriority::High,
        interruptible: false,
    }
}

/// A line in lower case that addresses the flip service.
pub open spec fn addresses_service(lower: Seq<char>) -> bool {
    begins_with(lower, "/cofl"@) || begins_with(lower, "/baf"@)
}

/// Whether a line in lower case addresses the flip service.
pub fn is_for_service(lower: &str) -> (r: bool)
    ensures
        r == addresses_service(lower@),
{
    starts_with(lower, "/cofl") || starts_with(lower, "/baf")
}

/// The message for a line that addresses the flip service with a command: the command is the type,
/// and the words behind it, one space between them, are the data.
pub open spec fn service_command(line: Seq<char>) -> Seq<char> {
    text_message(words(line)[1], joined(words(line).skip(2), " "@))
}

/// The message for a line that addresses the flip service with a command.
fn make_service_command(parts: &Vec<String>) -> (r: String)
    requires
        parts@.len() > 1,
    ensures
        r@ == text_message(texts(parts@)[1], joined(texts(parts@).skip(2), " "@)),
{
    let args = join_from(parts, 2, " ");
    make_text_message(parts[1].as_str(), args.as_str())
}

/// Where a trimmed line goes, given the line and its second word in lower case. What addresses the
/// flip service goes there, but for the two commands about the queue; without a command it is an
/// empty chat message. Other commands go to the game, and anything else is chat for the service.
pub open spec fn route_of(line: Seq<char>, lower: Seq<char>, second_lower: Seq<char>) -> RouteView {
    if line.len() == 0 {
        RouteView::Nothing
    } else if addresses_service(lower) {
        if words(line).len() > 1 {
            if second_lower == "queue"@ {
                RouteView::ShowQueue
            } else if second_lower == "clearqueue"@ {
                RouteView::ClearQueue
            } else {
                RouteView::Send(service_command(line))
            }
        } else {
            RouteView::Send(text_message("chat"@, Seq::empty()))
        }
    } else if begins_with(line, "/"@) {
        RouteView::Queue(chat_command(line))
    } else {
        RouteView::Send(text_message("chat"@, line))
    }
}

/// The second word of a line, if there is one.
pub open spec fn second_word(line: Seq<char>) -> Seq<char> {
    if words(line).len() > 1 {
        words(line)[1]
    } else {
        Seq::empty()
    }
}

/// Where a trimmed line goes, given the line and its second word in lower case.
pub fn route_line(line: &str, lower: &str, second_lower: &str) -> (r: Route)
    ensures
        r@ == route_of(line@, lower@, second_lower@),
{
    if line.is_empty() {
        Route::Nothing
    } else if is_for_service(lower) {
        let parts = split_whitespace(line);
        if parts.len() > 1 {
            if same_text(second_lower, "queue") {
                Route::ShowQueue
            } else if same_text(second_lower, "clearqueue") {
                Route::ClearQueue
            } else {
                Route::Send(make_service_command(&parts))
            }
        } else {
            proof {
                assert(""@ =~= Seq::empty()) by {
                    reveal_strlit("");
                }
            }
            Route::Send(make_text_message("chat", ""))
        }
    } else if starts_with(line, "/") {
        Route::Queue(queue_chat(line))
    } else {
        Route::Send(make_text_message("chat", line))
    }
}

/// Where a line of input goes.
pub open spec fn input_route(input: Seq<char>) -> RouteView {
    let line = trimmed(input);
    route_of(line, lowercase(line), lowercase(second_word(line)))
}

/// Where a line of input goes, from the console or from the web interface.
pub fn route_input(input: &str) -> (r: Route)
    ensures
        r@ == input_route(input@),
{
    let line = trim(input);
    let lower = to_lowercase(line.as_str());
    let parts = split_whitespace(line.as_str());
    let second = if parts.len() > 1 {
        parts[1].clone()
    } else {
        String::new()
    };
    let second_lower = to_lowercase(second.as_str());
    route_line(line.as_str(), lower.as_str(), second_lower.as_str())
}

/// Where a command goes that the flip service sends, given the trimmed command in lower case: what
/// addresses the service goes back to it, if it holds a command; anything else goes to the game as
/// it is.
pub open spec fn service_route(command: Seq<char>, lower: Seq<char>) -> RouteView {
    let line = trimmed(command);
    if addresses_service(lower) {
        if words(line).len() > 1 {
            RouteView::Send(service_command(line))
        } else {
            RouteView::Nothing
        }
    } else {
        RouteView::Queue(chat_command(command))
    }
}

/// Where a command goes that the flip service sends, given the trimmed command in lower case.
pub fn route_service_line(command: &str, lower: &str) -> (r: Route)
    ensures
        r@ == service_route(command@, lower@),
{
    let line = trim(command);
    if is_for_service(lower) {
        let parts = split_whitespace(line.as_str());
        if parts.len() > 1 {
            Route::Send(make_service_command(&parts))
        } else {
            Route::Nothing
        }
    } else {
        Route::Queue(queue_chat(command))
    }
}

/// Where a command goes that the flip service sends.
pub fn route_service_command(command: &str) -> (r: Route)
    ensures
        r@ == service_route(command@, lowercase(trimmed(command@))),
{
    let line = trim(command);
    let lower = to_lowercase(line.as_str());
    route_service_line(command, lower.as_str())
}

/// Only input with nothing in it is dropped, and only a line that begins with a slash can reach the
/// game.
pub proof fn law_input_goes_somewhere(line: Seq<char>, lower: Seq<char>, second_lower: Seq<char>)
    ensures
        route_of(line, lower, second_lower) is Nothing <==> line.len() == 0,
        route_of(line, lower, second_lower) matches RouteView::Queue(command) ==> command
            == chat_command(line) && line[0] == '/' && !addresses_service(lower),
{
    reveal_strlit("/");
    if begins_with(line, "/"@) {
        assert(line.subrange(0, 1)[0] == '/');
    }
}

/// A line goes to the flip service as chat unless it begins with a slash, and to the game as it is,
/// ahead of other commands, where it does; what addresses the flip service never reaches the game.
pub proof fn law_line_goes_by_its_beginning(line: Seq<char>, lower: Seq<char>, second: Seq<char>)
    requires
        line.len() > 0,
    ensures
        ({
            let to_service = begins_with(lower, "/cofl"@) || begins_with(lower, "/baf"@);
            let route = route_of(line, lower, second);
            &&& !to_service && line[0] != '/' ==> route == RouteView::Send(
                service_message("chat"@, json_text(JsonView::Text(line))),
            )
            &&& !to_service && line[0] == '/' ==> route == RouteView::Queue(
                QueuedView {
                    command: CommandView::SendChat(line),
                    priority: CommandPriority::High,
                    interruptible: false,
                },
            )
            &&& to_service && words(line).len() > 1 ==> route == (if second == "queue"@ {
                RouteView::ShowQueue
            } else if second == "clearqueue"@ {
                RouteView::ClearQueue
            } else {
                RouteView::Send(
                    service_message(
                        words(line)[1],
                        json_text(JsonView::Text(joined(words(line).skip(2), " "@))),
                    ),
                )
            })
            &&& to_service && words(line).len() <= 1 ==> route == RouteView::Send(
                service_message("chat"@, json_text(JsonView::Text(Seq::empty()))),
            )
        }),
{
    reveal_strlit("/");
    if begins_with(line, "/"@) {
        assert(line.subrange(0, 1)[0] == '/');
    } else if line[0] == '/' {
        assert(line.subrange(0, 1) =~= "/"@);
    }
}

/// A command for the flip service is its second word, and the words behind it, with one space
/// between them, are its data. Only the two commands about the queue stay here.
pub proof fn law_service_command_is_taken_apart(
    address: Seq<char>,
    command: Seq<char>,
    args: Seq<Seq<char>>,
    lower: Seq<char>,
    second: Seq<char>,
)
    requires
        is_word(address),
        is_word(command),
        forall|i: int| 0 <= i < args.len() ==> is_word(#[trigger] args[i]),
        begins_with(lower, "/cofl"@) || begins_with(lower, "/baf"@),
    ensures
        ({
            let line = joined(seq![address, command] + args, " "@);
            let message = service_message(command, json_text(JsonView::Text(joined(args, " "@))));
            &&& route_of(line, lower, second) == (if second == "queue"@ {
                RouteView::ShowQueue
            } else if second == "clearqueue"@ {
                RouteView::ClearQueue
            } else {
                RouteView::Send(message)
            })
            &&& second_word(line) == command
        }),
{
    let list = seq![address, command] + args;
    let line = joined(list, " "@);
    assert forall|i: int| 0 <= i < list.len() implies is_word(#[trigger] list[i]) by {
        if i >= 2 {
            assert(list[i] == args[i - 2]);
        }
    }
    law_joined_words_are_found_again(list);
    assert(words(line) == list);
    assert(list.skip(2) =~= args);
    if line.len() == 0 {
        assert(trimmed_start(line).len() == 0);
        assert(words(line).len() == 0);
    }
}

/// A line that addresses the flip service without a command is an empty chat message.
pub proof fn law_bare_address_is_an_empty_chat(
    address: Seq<char>,
    lower: Seq<char>,
    second: Seq<char>,
)
    requires
        is_word(address),
        begins_with(lower, "/cofl"@) || begins_with(lower, "/baf"@),
    ensures
        route_of(address, lower, second) == RouteView::Send(
            service_message("chat"@, json_text(JsonView::Text(Seq::empty()))),
        ),
        service_route(address, lower) is Nothing,
{
    let list = seq![address];
    assert forall|i: int| 0 <= i < list.len() implies is_word(#[trigger] list[i]) by {}
    law_joined_words_are_found_again(list);
    assert(joined(list, " "@) == address);
    assert(is_word(address));
    assert(!is_space(address[0]) && !is_space(address.last()));
    assert(trimmed(address) == address);
}

/// What the flip service sends goes back to it where it addresses it, and otherwise to the game, as
/// it came and ahead of other commands. The queue is left alone.
pub proof fn law_service_line_goes_by_its_beginning(command: Seq<char>, lower: Seq<char>)
    ensures
        ({
            let to_service = begins_with(lower, "/cofl"@) || begins_with(lower, "/baf"@);
            let list = words(trimmed(command));
            let route = service_route(command, lower);
            &&& !to_service ==> route == RouteView::Queue(
                QueuedView {
                    command: CommandView::SendChat(command),
                    priority: CommandPriority::High,
                    interruptible: false,
                },
            )
            &&& to_service && list.len() > 1 ==> route == RouteView::Send(
                service_message(
                    list[1],
                    json_text(JsonView::Text(joined(list.skip(2), " "@))),
                ),
            )
            &&& to_service && list.len() <= 1 ==> route is Nothing
        }),
{
}

/// Input is routed by its line without the white space around it, in whatever case it is written.
pub proof fn law_input_is_routed_by_its_line(input: Seq<char>, other: Seq<char>)
    requires
        trimmed(input) == trimmed(other),
    ensures
        input_route(input) == input_route(other),
        trimmed(input).len() == 0 <==> input_route(input) is Nothing,
{
}

/// The two commands about the queue are known in whatever case they are written, and are not sent
/// anywhere.
pub proof fn law_queue_commands_stay_here(address: Seq<char>, command: Seq<char>)
    requires
        is_word(address),
        is_word(command),
        begins_with(lowercase(address + " "@ + command), "/cofl"@) || begins_with(
            lowercase(address + " "@ + command),
            "/baf"@,
        ),
    ensures
        lowercase(command) == "queue"@ ==> input_route(address + " "@ + command) is ShowQueue,
        lowercase(command) == "clearqueue"@ ==> input_route(address + " "@ + command) is ClearQueue,
        lowercase(command) != "queue"@ && lowercase(command) != "clearqueue"@ ==> input_route(
            address + " "@ + command,
        ) == RouteView::Send(
            service_message(command, json_text(JsonView::Text(Seq::empty()))),
        ),
{
    let line = address + " "@ + command;
    let list = seq![address, command];
    assert(list.drop_last() =~= seq![address]);
    assert(joined(list.drop_last(), " "@) == address);
    assert(joined(list, " "@) =~= line);
    assert(list + Seq::<Seq<char>>::empty() =~= list);
    assert(joined(Seq::<Seq<char>>::empty(), " "@) =~= Seq::empty());
    law_service_command_is_taken_apart(
        address,
        command,
        Seq::empty(),
        lowercase(line),
        lowercase(command),
    );
    assert(!is_space(address[0]) && !is_space(command.last()));
    assert(line[0] == address[0] && line.last() == command.last());
    assert(trimmed(line) == line);
    reveal_strlit("queue");
    reveal_strlit("clearqueue");
    assert("queue"@.len() != "clearqueue"@.len());
}

/// Input that does not address the flip service goes to the game where it begins with a slash, and
/// to the service as chat where it does not, without the white space around it.
pub proof fn law_other_input_is_chat_or_a_game_command(input: Seq<char>)
    requires
        trimmed(input).len() > 0,
        !begins_with(lowercase(trimmed(input)), "/cofl"@),
        !begins_with(lowercase(trimmed(input)), "/baf"@),
    ensures
        input_route(input) == (if trimmed(input)[0] == '/' {
            RouteView::Queue(
                QueuedView {
                    command: CommandView::SendChat(trimmed(input)),
                    priority: CommandPriority::High,
                    interruptible: false,
                },
            )
        } else {
            RouteView::Send(service_message("chat"@, json_text(JsonView::Text(trimmed(input)))))
        }),
{
    let line = trimmed(input);
    law_line_goes_by_its_beginning(line, lowercase(line), lowercase(second_word(line)));
}

} // verus!
