//! Parameter shapes of the domain commands.
//!
//! Each command the surrounding process exposes takes one of these
//! plain argument records; the record's fields are packed into the
//! request payload that the connection sends. The commands themselves
//! carry no logic here: every one is a pass-through to the peer.

use vstd::prelude::*;

verus! {

/// Arguments for authenticating and joining the game world.
#[derive(Debug, Clone)]
pub struct ConnectParams {
    /// Player username.
    pub username: String,
    /// Authentication token.
    pub token: String,
}

/// Arguments for observing the room or examining a target.
#[derive(Debug, Clone)]
pub struct LookParams {
    /// Optional target to examine closely.
    pub target: Option<String>,
}

/// Arguments for moving in a direction.
#[derive(Debug, Clone)]
pub struct MoveParams {
    /// Direction to move (north, south, east, west, up, down, or exit name).
    pub direction: String,
}

/// Arguments for attacking a target.
#[derive(Debug, Clone)]
pub struct AttackParams {
    /// Target to attack.
    pub target: String,
    /// Optional weapon to use.
    pub weapon: Option<String>,
}

/// Arguments for using a class ability.
#[derive(Debug, Clone)]
pub struct UseAbilityParams {
    /// Ability name to use.
    pub ability: String,
    /// Optional target for the ability.
    pub target: Option<String>,
}

/// Arguments for picking up an item.
#[derive(Debug, Clone)]
pub struct GetItemParams {
    /// Item name to pick up.
    pub item: String,
}

/// Arguments for dropping an item.
#[derive(Debug, Clone)]
pub struct DropItemParams {
    /// Item name to drop.
    pub item: String,
}

/// Arguments for equipping an item.
#[derive(Debug, Clone)]
pub struct EquipParams {
    /// Item name to equip.
    pub item: String,
    /// Optional equipment slot.
    pub slot: Option<String>,
}

/// Arguments for using an item.
#[derive(Debug, Clone)]
pub struct UseItemParams {
    /// Item name to use.
    pub item: String,
    /// Optional target to use the item on.
    pub target: Option<String>,
}

/// Arguments for speaking to the room.
#[derive(Debug, Clone)]
pub struct SayParams {
    /// Message to say.
    pub message: String,
}

/// Arguments for whispering to a player.
#[derive(Debug, Clone)]
pub struct TellParams {
    /// Player to whisper to.
    pub player: String,
    /// Message to send.
    pub message: String,
}

/// Arguments for shouting to the zone.
#[derive(Debug, Clone)]
pub struct ShoutParams {
    /// Message to shout.
    pub message: String,
}

/// Arguments for emoting an action.
#[derive(Debug, Clone)]
pub struct EmoteParams {
    /// Action to emote.
    pub action: String,
}

/// Arguments for speaking on a chat channel.
#[derive(Debug, Clone)]
pub struct ChannelParams {
    /// Channel name.
    pub name: String,
    /// Message to send.
    pub message: String,
}

/// Arguments for inviting a player to a party.
#[derive(Debug, Clone)]
pub struct PartyInviteParams {
    /// Player to invite.
    pub player: String,
}

/// Arguments for removing a player from a party.
#[derive(Debug, Clone)]
pub struct PartyKickParams {
    /// Player to remove.
    pub player: String,
}

/// Arguments for queueing for matchmaking.
#[derive(Debug, Clone)]
pub struct MatchmakeParams {
    /// Optional preferred role.
    pub role: Option<String>,
    /// Optional target zone.
    pub zone: Option<String>,
}

/// Arguments for commanding a companion.
#[derive(Debug, Clone)]
pub struct CompanionParams {
    /// Command for the companion.
    pub command: String,
}

/// Arguments for writing a companion memory.
#[derive(Debug, Clone)]
pub struct CompanionMemoryWriteParams {
    /// Memory text to store.
    pub text: String,
    /// Optional tag for the memory.
    pub tag: Option<String>,
}

/// Arguments for requesting a description suggestion.
#[derive(Debug, Clone)]
pub struct SuggestDescriptionParams {
    /// Context for the suggestion.
    pub context: String,
}

/// Arguments for buying from a shop.
#[derive(Debug, Clone)]
pub struct BuyParams {
    /// Shop identifier.
    pub shop_id: String,
    /// Item name to buy.
    pub item: String,
}

/// Arguments for selling to a shop.
#[derive(Debug, Clone)]
pub struct SellParams {
    /// Shop identifier.
    pub shop_id: String,
    /// Item name to sell.
    pub item: String,
}

/// Arguments for accepting a quest.
#[derive(Debug, Clone)]
pub struct AcceptQuestParams {
    /// Quest identifier to accept.
    pub quest_id: String,
}

/// Arguments for completing a quest.
#[derive(Debug, Clone)]
pub struct CompleteQuestParams {
    /// Quest identifier to complete.
    pub quest_id: String,
}

/// Arguments for talking to a character.
#[derive(Debug, Clone)]
pub struct TalkParams {
    /// Character to talk to.
    pub target: String,
}

/// Arguments for selecting a dialogue option.
#[derive(Debug, Clone)]
pub struct DialogueSelectParams {
    /// Character being talked to.
    pub npc: String,
    /// Index of the chosen dialogue option.
    pub option: usize,
}

/// Arguments for viewing a leaderboard.
#[derive(Debug, Clone)]
pub struct LeaderboardParams {
    /// Optional leaderboard kind.
    pub board_type: Option<String>,
}

/// Arguments for creating a guild.
#[derive(Debug, Clone)]
pub struct GuildCreateParams {
    /// Guild name.
    pub name: String,
}

/// Arguments for inviting a player to a guild.
#[derive(Debug, Clone)]
pub struct GuildInviteParams {
    /// Player to invite.
    pub player: String,
}

/// Arguments for depositing into the guild bank.
#[derive(Debug, Clone)]
pub struct GuildDepositParams {
    /// Amount of gold to deposit.
    pub amount: u64,
}

} // verus!
