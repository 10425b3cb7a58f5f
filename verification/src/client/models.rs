//! Value types of the provider protocol.

use vstd::prelude::*;

use crate::models::Direction;

verus! {

/// Who authored a chat message in a provider conversation.
pub enum Role {
    User,
    System,
    Assistant,
}

impl Role {
    /// The role's name as the wire format spells it.
    pub fn as_string(&self) -> (r: String)
        ensures
            r@ == self.name_spec(),
    {
        match self {
            Role::User => "user".to_owned(),
            Role::System => "system".to_owned(),
            Role::Assistant => "assistant".to_owned(),
        }
    }

    pub open spec fn name_spec(self) -> Seq<char> {
        match self {
            Role::User => "user"@,
            Role::System => "system"@,
            Role::Assistant => "assistant"@,
        }
    }
}

/// One choice of a chat-completion reply.
pub struct Choice {
    pub message: Message,
}

/// A chat message exchanged with a provider.
pub struct Message {
    pub role: String,
    pub content: String,
}

/// The conversation-history rule for suggestion requests: the system
/// prompt at the front stays, a new user message replaces any
/// earlier one, so the history never grows past two entries.
pub fn push_user_message(messages: &mut Vec<Message>, content: String)
    ensures
        ({
            let kept = if old(messages)@.len() > 1 {
                old(messages)@.drop_last()
            } else {
                old(messages)@
            };
            &&& final(messages)@.len() == kept.len() + 1
            &&& forall|k: int| 0 <= k < kept.len() ==> final(messages)@[k] == kept[k]
            &&& final(messages)@.last().role@ == "user"@
            &&& final(messages)@.last().content@ == content@
        }),
{
    if messages.len() > 1 {
        messages.pop();
        proof {
            assert(messages@ =~= old(messages)@.drop_last());
        }
    }
    messages.push(Message { role: Role::User.as_string(), content });
}

/// The coordinates handed to a provider: where the snake's head is
/// and where the food is.
#[derive(Clone, Copy, PartialEq, Eq, Structural, Debug)]
pub struct InputContent {
    pub snake_head_x: i32,
    pub snake_head_y: i32,
    pub food_x: i32,
    pub food_y: i32,
}

/// A provider's parsed reply: an ordered batch of commands.
#[derive(PartialEq, Debug)]
pub struct OutputContent {
    pub commands: Vec<Commands>,
}

/// One instruction of a batch: a direction, repeated `repeat` times.
#[derive(Clone, Copy, PartialEq, Eq, Structural, Debug)]
pub struct Commands {
    pub command: Direction,
    pub repeat: i32,
}

/// The batch the provider convention calls for, given the head and
/// food coordinates: close the vertical gap first, then the
/// horizontal one, skipping an axis whose gap is zero.
pub open spec fn suggested_commands(input: InputContent) -> Seq<Commands> {
    let vertical: Seq<Commands> = if input.food_y > input.snake_head_y {
        seq![Commands { command: Direction::Up, repeat: (input.food_y - input.snake_head_y) as i32 }]
    } else if input.food_y < input.snake_head_y {
        seq![Commands { command: Direction::Down, repeat: (input.snake_head_y - input.food_y) as i32 }]
    } else {
        Seq::empty()
    };
    let horizontal: Seq<Commands> = if input.food_x > input.snake_head_x {
        seq![Commands { command: Direction::Right, repeat: (input.food_x - input.snake_head_x) as i32 }]
    } else if input.food_x < input.snake_head_x {
        seq![Commands { command: Direction::Left, repeat: (input.snake_head_x - input.food_x) as i32 }]
    } else {
        Seq::empty()
    };
    vertical + horizontal
}

/// The batch a provider is expected to answer with: a provider that
/// follows the convention returns exactly this.
pub fn suggest_commands(input: &InputContent) -> (r: OutputContent)
    requires
        input.food_y - input.snake_head_y <= i32::MAX,
        input.snake_head_y - input.food_y <= i32::MAX,
        input.food_x - input.snake_head_x <= i32::MAX,
        input.snake_head_x - input.food_x <= i32::MAX,
    ensures
        r.commands@ == suggested_commands(*input),
{
    let mut commands: Vec<Commands> = Vec::new();
    if input.food_y > input.snake_head_y {
        commands.push(Commands { command: Direction::Up, repeat: input.food_y - input.snake_head_y });
    } else if input.food_y < input.snake_head_y {
        commands.push(Commands { command: Direction::Down, repeat: input.snake_head_y - input.food_y });
    }
    if input.food_x > input.snake_head_x {
        commands.push(Commands { command: Direction::Right, repeat: input.food_x - input.snake_head_x });
    } else if input.food_x < input.snake_head_x {
        commands.push(Commands { command: Direction::Left, repeat: input.snake_head_x - input.food_x });
    }
    proof {
        assert(commands@ =~= suggested_commands(*input));
    }
    OutputContent { commands }
}

} // verus!
