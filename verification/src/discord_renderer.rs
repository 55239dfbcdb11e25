//! The renderer: it turns what is to be shown into the two messages of a
//! battle, the upper with the state of the machine and the buttons, the
//! lower with the progress of the turn, the log and the players.

use vstd::prelude::*;
use vstd::string::*;
use crate::components::{BygonePart, GuildId, Health, Vitality};
use crate::dice::Dice;
use crate::events::{OneshotType, OngoingGamePayload, OngoingGameView};
use crate::game_helpers::FinishedGameStatus;
use crate::localization::{Localization, RenderText};
use crate::text::{decimal, join, joined, repeat, repeated, replaced, u64_to_string, views};

verus! {

/// The number of squares of the progress bar.
pub const PROGRESS_BAR_SIZE: usize = 4;

/// The address of the picture of the machine.
pub const TITLE_IMAGE_URL: &'static str =
    "https://cdn.discordapp.com/attachments/924690917108121661/1015027218264641556/bygone_03_cropped.gif";

/// What is said of a progress bar that has no message to stand in.
pub const NO_LOWER_MESSAGE: &'static str =
    "can't write progress bar for deleted or skipped lower message";

/// The look of a button.
#[derive(Clone, Copy, Debug, PartialEq, Eq, Structural, Hash)]
pub enum ButtonStyle {
    Secondary,
    Success,
    Danger,
}

/// A button under a message.
#[derive(Debug)]
pub struct Button {
    pub custom_id: Option<String>,
    pub disabled: bool,
    pub emoji: Option<String>,
    pub label: Option<String>,
    pub style: ButtonStyle,
}

/// A button as text and values.
pub struct ButtonView {
    pub custom_id: Option<Seq<char>>,
    pub disabled: bool,
    pub emoji: Option<Seq<char>>,
    pub label: Option<Seq<char>>,
    pub style: ButtonStyle,
}

/// The text of a string that may be missing.
pub open spec fn text_of(text: Option<String>) -> Option<Seq<char>> {
    match text {
        Some(text) => Some(text@),
        None => None,
    }
}

impl View for Button {
    type V = ButtonView;

    open spec fn view(&self) -> ButtonView {
        ButtonView {
            custom_id: text_of(self.custom_id),
            disabled: self.disabled,
            emoji: text_of(self.emoji),
            label: text_of(self.label),
            style: self.style,
        }
    }
}

/// A row of buttons.
#[derive(Debug)]
pub struct ActionRow {
    pub components: Vec<Button>,
}

impl View for ActionRow {
    type V = Seq<ButtonView>;

    open spec fn view(&self) -> Seq<ButtonView> {
        self.components@.map_values(|button: Button| button@)
    }
}

/// A field of an embed: a name over a value.
#[derive(Debug)]
pub struct EmbedField {
    pub name: String,
    pub value: String,
    pub inline: bool,
}

/// A field of an embed as text and values.
pub struct EmbedFieldView {
    pub name: Seq<char>,
    pub value: Seq<char>,
    pub inline: bool,
}

impl View for EmbedField {
    type V = EmbedFieldView;

    open spec fn view(&self) -> EmbedFieldView {
        EmbedFieldView { name: self.name@, value: self.value@, inline: self.inline }
    }
}

/// A framed block of a message.
#[derive(Debug)]
pub struct Embed {
    pub description: Option<String>,
    pub image_url: Option<String>,
    pub fields: Vec<EmbedField>,
}

/// An embed as text and values.
pub struct EmbedView {
    pub description: Option<Seq<char>>,
    pub image_url: Option<Seq<char>>,
    pub fields: Seq<EmbedFieldView>,
}

impl View for Embed {
    type V = EmbedView;

    open spec fn view(&self) -> EmbedView {
        EmbedView {
            description: text_of(self.description),
            image_url: text_of(self.image_url),
            fields: self.fields@.map_values(|field: EmbedField| field@),
        }
    }
}

/// A message: embeds over rows of buttons.
#[derive(Debug)]
pub struct RenderedMessagePure {
    pub embeds: Vec<Embed>,
    pub components: Vec<ActionRow>,
}

/// A message as text and values.
pub struct MessageView {
    pub embeds: Seq<EmbedView>,
    pub components: Seq<Seq<ButtonView>>,
}

impl View for RenderedMessagePure {
    type V = MessageView;

    open spec fn view(&self) -> MessageView {
        MessageView {
            embeds: self.embeds@.map_values(|embed: Embed| embed@),
            components: self.components@.map_values(|row: ActionRow| row@),
        }
    }
}

/// The two messages of a battle.
#[derive(Debug)]
pub struct RenderedGamePure {
    pub upper_message: RenderedMessagePure,
    pub lower_message: RenderedMessagePure,
}

impl View for RenderedGamePure {
    type V = (MessageView, MessageView);

    open spec fn view(&self) -> (MessageView, MessageView) {
        (self.upper_message@, self.lower_message@)
    }
}

/// What is to become of a message: it is replaced, left as it is, or
/// deleted.
#[derive(Debug)]
pub enum RenderedMessage {
    Message(RenderedMessagePure),
    Skip,
    Delete,
}

/// What is to become of a message, as text and values.
pub enum RenderedMessageView {
    Message(MessageView),
    Skip,
    Delete,
}

impl View for RenderedMessage {
    type V = RenderedMessageView;

    open spec fn view(&self) -> RenderedMessageView {
        match self {
            RenderedMessage::Message(message) => RenderedMessageView::Message(message@),
            RenderedMessage::Skip => RenderedMessageView::Skip,
            RenderedMessage::Delete => RenderedMessageView::Delete,
        }
    }
}

impl RenderedMessage {
    /// The message as one that replaces.
    pub fn from(message: RenderedMessagePure) -> (r: Self)
        ensures
            r == RenderedMessage::Message(message),
    {
        Self::Message(message)
    }
}

/// What is to become of the two messages of a battle.
#[derive(Debug)]
pub struct RenderedGame {
    pub upper_message: RenderedMessage,
    pub lower_message: RenderedMessage,
}

impl View for RenderedGame {
    type V = (RenderedMessageView, RenderedMessageView);

    open spec fn view(&self) -> (RenderedMessageView, RenderedMessageView) {
        (self.upper_message@, self.lower_message@)
    }
}

impl RenderedGame {
    /// The two messages as ones that replace.
    pub fn from(game: RenderedGamePure) -> (r: Self)
        ensures
            r == (RenderedGame {
                upper_message: RenderedMessage::Message(game.upper_message),
                lower_message: RenderedMessage::Message(game.lower_message),
            }),
    {
        Self {
            upper_message: RenderedMessage::from(game.upper_message),
            lower_message: RenderedMessage::from(game.lower_message),
        }
    }
}

/// A drawing that could not be made.
#[derive(Debug)]
pub struct GameRenderError {
    pub id: GuildId,
    pub msg: String,
}

impl GameRenderError {
    pub fn new(id: GuildId, msg: String) -> (r: Self)
        ensures
            r == (GameRenderError { id, msg }),
    {
        GameRenderError { id, msg }
    }

    /// What went wrong, and in which guild.
    pub fn to_string(&self) -> (r: String)
        ensures
            r@ == self.msg@ + ", guild id: "@ + decimal(self.id as nat),
    {
        let mut out = self.msg.clone();
        out.append(", guild id: ");
        out.append(u64_to_string(self.id).as_str());
        out
    }
}

/// The look of the button of a part with the given health: grey when
/// dead, green above half of the maximum, red else.
pub open spec fn button_style(health: Health) -> ButtonStyle {
    if health.current() == 0 {
        ButtonStyle::Secondary
    } else if health.current() > health.max() / 2 {
        ButtonStyle::Success
    } else {
        ButtonStyle::Danger
    }
}

/// The look of the button of a part with the given health.
pub fn get_button_style(health: &Health) -> (r: ButtonStyle)
    ensures
        r == button_style(*health),
{
    if health.current() == 0 {
        ButtonStyle::Secondary
    } else if health.current() > health.max() / 2 {
        ButtonStyle::Success
    } else {
        ButtonStyle::Danger
    }
}

/// The button of a part with the given health under the given emoji: it
/// cannot be pressed when the part is dead.
pub open spec fn controls_button(emoji: Seq<char>, health: Health) -> ButtonView {
    ButtonView {
        custom_id: Some(emoji),
        disabled: !health.alive(),
        emoji: Some(emoji),
        label: None,
        style: button_style(health),
    }
}

/// The button of a part with the given health under the given emoji.
pub fn make_controls_button(emoji: &str, health: &Health) -> (r: Button)
    ensures
        r@ == controls_button(emoji@, *health),
{
    Button {
        custom_id: Some(String::from_str(emoji)),
        disabled: !health.alive(),
        emoji: Some(String::from_str(emoji)),
        label: None,
        style: get_button_style(health),
    }
}

/// The progress bar of `max` squares of which `cur` are filled, but no
/// more than there are.
pub open spec fn turn_timer(cur: usize, max: usize) -> Seq<char> {
    let filled = if cur < max {
        cur
    } else {
        max
    };
    repeated(":red_square:"@, filled as nat) + repeated(
        ":white_large_square:"@,
        (max - filled) as nat,
    )
}

/// The progress bar of `max` squares of which `cur` are filled.
pub fn render_turn_timer(cur: usize, max: usize) -> (r: String)
    ensures
        r@ == turn_timer(cur, max),
{
    let cur = if cur < max {
        cur
    } else {
        max
    };
    let mut out = repeat(":red_square:", cur);
    out.append(repeat(":white_large_square:", max - cur).as_str());
    out
}

/// The number of filled squares at the given progress in percent: the
/// progress on the scale of the bar and one square more, rounded to the
/// nearest whole, halves upwards, and kept within the bar.
pub open spec fn filled_squares(progress: i32) -> usize {
    if progress < 0 {
        0
    } else if (progress + 10) / 20 > PROGRESS_BAR_SIZE {
        PROGRESS_BAR_SIZE
    } else {
        ((progress + 10) / 20) as usize
    }
}

/// The number of filled squares at the given progress in percent.
pub fn filled_count(progress: i32) -> (r: usize)
    ensures
        r == filled_squares(progress),
        r <= PROGRESS_BAR_SIZE,
{
    if progress < 0 {
        0
    } else {
        let scaled: i64 = (progress as i64 + 10) / 20;
        if scaled > 4 {
            4
        } else {
            scaled as usize
        }
    }
}

/// An embed of one field and nothing else.
pub open spec fn field_embed(name: Seq<char>, value: Seq<char>) -> EmbedView {
    EmbedView {
        description: None,
        image_url: None,
        fields: seq![EmbedFieldView { name, value, inline: false }],
    }
}

/// An embed of a description and nothing else.
pub open spec fn description_embed(description: Seq<char>) -> EmbedView {
    EmbedView { description: Some(description), image_url: None, fields: Seq::empty() }
}

/// The status of the machine: its attack, and the stage of its core.
pub open spec fn bygone_status(loc: Localization, payload: OngoingGameView) -> Seq<char> {
    " • "@ + payload.bygone_attack.rendered(&loc) + "\n • "@ + loc.core@ + ": "@
        + payload.bygone_stage.rendered(&loc)
}

/// The upper message of a battle that goes on: the title with the picture
/// of the machine, the status of the machine with the vitality of each
/// part, and two rows of buttons, one button for each part.
pub open spec fn upper_message(loc: Localization, payload: OngoingGameView) -> MessageView {
    let parts = payload.bygone_parts;
    MessageView {
        embeds: seq![
            EmbedView {
                description: Some(loc.title@),
                image_url: Some(TITLE_IMAGE_URL@),
                fields: Seq::empty(),
            },
            EmbedView {
                description: None,
                image_url: None,
                fields: seq![
                    EmbedFieldView {
                        name: loc.status_title@,
                        value: bygone_status(loc, payload),
                        inline: false,
                    },
                    EmbedFieldView {
                        name: loc.sensor_title@,
                        value: parts.sensor.rendered(&loc),
                        inline: true,
                    },
                    EmbedFieldView {
                        name: loc.core_title@,
                        value: parts.core.rendered(&loc),
                        inline: true,
                    },
                    EmbedFieldView {
                        name: loc.gun_title@,
                        value: parts.gun.rendered(&loc),
                        inline: true,
                    },
                    EmbedFieldView {
                        name: loc.right_wing_title@,
                        value: parts.right_wing.rendered(&loc),
                        inline: true,
                    },
                    EmbedFieldView {
                        name: loc.left_wing_title@,
                        value: parts.left_wing.rendered(&loc),
                        inline: true,
                    },
                ],
            },
        ],
        components: seq![
            seq![
                controls_button("🇸"@, *parts.sensor.health()),
                controls_button("🇨"@, *parts.core.health()),
                controls_button("🇬"@, *parts.gun.health()),
            ],
            seq![
                controls_button("🇷"@, *parts.right_wing.health()),
                ButtonView {
                    custom_id: Some("status"@),
                    disabled: true,
                    emoji: None,
                    label: Some(" "@),
                    style: ButtonStyle::Secondary,
                },
                controls_button("🇱"@, *parts.left_wing.health()),
            ],
        ],
    }
}

/// The fields of the players: the name of each over the bar of their
/// health.
pub open spec fn player_fields(loc: Localization, players: Seq<(Seq<char>, Vitality)>) -> Seq<
    EmbedFieldView,
> {
    Seq::new(
        players.len(),
        |i: int|
            EmbedFieldView {
                name: players[i].0,
                value: players[i].1.health().rendered(&loc),
                inline: false,
            },
    )
}

/// An embed without anything in it.
pub open spec fn empty_embed() -> EmbedView {
    EmbedView { description: None, image_url: None, fields: Seq::empty() }
}

/// The embed of the battle log: under the title of the log one bullet for
/// each line, and nothing at all, no bullet either, where the log holds no
/// line.
pub open spec fn log_embed(loc: Localization, lines: Seq<Seq<char>>) -> EmbedView {
    if lines.len() == 0 {
        empty_embed()
    } else {
        field_embed(loc.log_title@, " • "@ + joined(lines, "\n • "@))
    }
}

/// The lower message of a battle that goes on: the progress bar of the
/// turn, empty; the lines of the log; and the players.
pub open spec fn lower_message(loc: Localization, payload: OngoingGameView) -> MessageView {
    MessageView {
        embeds: seq![
            field_embed(loc.turn_progress_title@, turn_timer(0, PROGRESS_BAR_SIZE)),
            log_embed(loc, payload.battle_log_lines),
            EmbedView {
                description: None,
                image_url: None,
                fields: player_fields(loc, payload.players),
            },
        ],
        components: Seq::empty(),
    }
}

/// The text that says how a battle has ended, where the dice pick the
/// `pick`th of the lines for a battle that has expired.
pub open spec fn finished_text(loc: Localization, status: FinishedGameStatus, pick: int) -> Seq<char> {
    match status {
        FinishedGameStatus::Won => loc.won@,
        FinishedGameStatus::Lost => loc.lost@,
        FinishedGameStatus::Expired => loc.expired@[pick]@,
    }
}

/// The text of a message that stands for itself.
pub open spec fn oneshot_text(loc: Localization, oneshot_type: OneshotType) -> Seq<char> {
    match oneshot_type {
        OneshotType::Cooldown(duration_left) => replaced(
            loc.battle_cooldown@,
            "{DURATION}"@,
            decimal(duration_left as nat),
        ),
        OneshotType::OtherGameInProgress => loc.other_battle_ongoing@,
    }
}

/// The message `lower` with the progress bar at `progress` percent as its
/// first embed: in the place of the first embed, or alone where the
/// message has no embed.
pub open spec fn progress_message(lower: MessageView, loc: Localization, progress: i32) -> MessageView {
    let bar = field_embed(
        loc.turn_progress_title@,
        turn_timer(filled_squares(progress), PROGRESS_BAR_SIZE),
    );
    MessageView {
        embeds: if lower.embeds.len() == 0 {
            seq![bar]
        } else {
            lower.embeds.update(0, bar)
        },
        components: lower.components,
    }
}

/// What becomes of the messages of a battle that has ended: the upper
/// message says how, and the lower is deleted.
pub open spec fn finished_game(loc: Localization, status: FinishedGameStatus, pick: int) -> (
    RenderedMessageView,
    RenderedMessageView,
) {
    (
        RenderedMessageView::Message(
            MessageView {
                embeds: seq![description_embed(finished_text(loc, status, pick))],
                components: Seq::empty(),
            },
        ),
        RenderedMessageView::Delete,
    )
}

/// The message that stands for itself.
pub open spec fn oneshot_message(loc: Localization, oneshot_type: OneshotType) -> MessageView {
    MessageView {
        embeds: seq![description_embed(oneshot_text(loc, oneshot_type))],
        components: Seq::empty(),
    }
}

/// A copy of a string that may be missing.
fn clone_text(text: &Option<String>) -> (r: Option<String>)
    ensures
        r == *text,
{
    match text {
        Some(text) => Some(text.clone()),
        None => None,
    }
}

impl Clone for Button {
    fn clone(&self) -> (r: Self)
        ensures
            r == *self,
    {
        Button {
            custom_id: clone_text(&self.custom_id),
            disabled: self.disabled,
            emoji: clone_text(&self.emoji),
            label: clone_text(&self.label),
            style: self.style,
        }
    }
}

impl Clone for ActionRow {
    fn clone(&self) -> (r: Self)
        ensures
            r@ == self@,
            r.components@ == self.components@,
    {
        let mut components: Vec<Button> = Vec::new();
        let n = self.components.len();
        let mut i: usize = 0;
        while i < n
            invariant
                i <= n,
                n == self.components@.len(),
                components@ == self.components@.take(i as int),
            decreases n - i,
        {
            components.push(self.components[i].clone());
            proof {
                assert(components@ =~= self.components@.take(i + 1));
            }
            i += 1;
        }
        proof {
            assert(self.components@.take(n as int) =~= self.components@);
        }
        ActionRow { components }
    }
}

impl Clone for EmbedField {
    fn clone(&self) -> (r: Self)
        ensures
            r == *self,
    {
        EmbedField { name: self.name.clone(), value: self.value.clone(), inline: self.inline }
    }
}

impl Clone for Embed {
    fn clone(&self) -> (r: Self)
        ensures
            r@ == self@,
    {
        let mut fields: Vec<EmbedField> = Vec::new();
        let n = self.fields.len();
        let mut i: usize = 0;
        while i < n
            invariant
                i <= n,
                n == self.fields@.len(),
                fields@ == self.fields@.take(i as int),
            decreases n - i,
        {
            fields.push(self.fields[i].clone());
            proof {
                assert(fields@ =~= self.fields@.take(i + 1));
            }
            i += 1;
        }
        proof {
            assert(self.fields@.take(n as int) =~= self.fields@);
        }
        Embed {
            description: clone_text(&self.description),
            image_url: clone_text(&self.image_url),
            fields,
        }
    }
}

impl Clone for RenderedMessagePure {
    fn clone(&self) -> (r: Self)
        ensures
            r@ == self@,
    {
        let mut embeds: Vec<Embed> = Vec::new();
        let n = self.embeds.len();
        let mut i: usize = 0;
        while i < n
            invariant
                i <= n,
                n == self.embeds@.len(),
                embeds@.map_values(|embed: Embed| embed@) == self.embeds@.take(i as int).map_values(
                    |embed: Embed| embed@,
                ),
            decreases n - i,
        {
            let ghost before = embeds@;
            let embed = self.embeds[i].clone();
            embeds.push(embed);
            proof {
                assert(embeds@.map_values(|embed: Embed| embed@) =~= before.map_values(
                    |embed: Embed| embed@,
                ).push(embed@));
                assert(self.embeds@.take(i + 1).map_values(|embed: Embed| embed@)
                    =~= self.embeds@.take(i as int).map_values(|embed: Embed| embed@).push(
                    self.embeds@[i as int]@,
                ));
            }
            i += 1;
        }
        let mut components: Vec<ActionRow> = Vec::new();
        let m = self.components.len();
        let mut j: usize = 0;
        while j < m
            invariant
                j <= m,
                m == self.components@.len(),
                components@.map_values(|row: ActionRow| row@) == self.components@.take(
                    j as int,
                ).map_values(|row: ActionRow| row@),
            decreases m - j,
        {
            let ghost before = components@;
            let row = self.components[j].clone();
            components.push(row);
            proof {
                assert(components@.map_values(|row: ActionRow| row@) =~= before.map_values(
                    |row: ActionRow| row@,
                ).push(row@));
                assert(self.components@.take(j + 1).map_values(|row: ActionRow| row@)
                    =~= self.components@.take(j as int).map_values(|row: ActionRow| row@).push(
                    self.components@[j as int]@,
                ));
            }
            j += 1;
        }
        proof {
            assert(self.embeds@.take(n as int) =~= self.embeds@);
            assert(self.components@.take(m as int) =~= self.components@);
        }
        RenderedMessagePure { embeds, components }
    }
}

/// An embed of one field and nothing else.
fn make_field_embed(name: &str, value: String) -> (r: Embed)
    ensures
        r@ == field_embed(name@, value@),
{
    let mut fields: Vec<EmbedField> = Vec::new();
    fields.push(EmbedField { name: String::from_str(name), value, inline: false });
    let r = Embed { description: None, image_url: None, fields };
    proof {
        assert(r@.fields =~= field_embed(name@, value@).fields);
    }
    r
}

/// An embed of a description and nothing else.
fn make_description_embed(description: &str) -> (r: Embed)
    ensures
        r@ == description_embed(description@),
{
    let r = Embed {
        description: Some(String::from_str(description)),
        image_url: None,
        fields: Vec::new(),
    };
    proof {
        assert(r@.fields =~= description_embed(description@).fields);
    }
    r
}

/// A message of one embed with a description, without buttons.
fn make_text_message(description: &str) -> (r: RenderedMessagePure)
    ensures
        r@ == (MessageView {
            embeds: seq![description_embed(description@)],
            components: Seq::empty(),
        }),
{
    let mut embeds: Vec<Embed> = Vec::new();
    embeds.push(make_description_embed(description));
    let r = RenderedMessagePure { embeds, components: Vec::new() };
    proof {
        assert(r@.embeds =~= seq![description_embed(description@)]);
        assert(r@.components =~= Seq::<Seq<ButtonView>>::empty());
    }
    r
}

/// The renderer of the messages of a battle.
#[derive(Clone, Copy, Debug, PartialEq, Eq, Structural, Hash)]
pub struct DiscordRenderer;

impl Default for DiscordRenderer {
    fn default() -> (r: Self) {
        DiscordRenderer
    }
}

impl DiscordRenderer {
    /// The upper message of a battle that goes on.
    fn render_upper_message(loc: &Localization, payload: &OngoingGamePayload) -> (r:
        RenderedMessagePure)
        ensures
            r@ == upper_message(*loc, payload@),
    {
        let parts = &payload.bygone_parts;
        let title = Embed {
            description: Some(loc.title.0.clone()),
            image_url: Some(String::from_str(TITLE_IMAGE_URL)),
            fields: Vec::new(),
        };
        let mut bygone_status = String::from_str(" • ");
        bygone_status.append(payload.bygone_attack.render_text(loc).as_str());
        bygone_status.append("\n • ");
        bygone_status.append(loc.core.0.as_str());
        bygone_status.append(": ");
        bygone_status.append(payload.bygone_stage.render_text(loc).as_str());
        let mut fields: Vec<EmbedField> = Vec::new();
        fields.push(
            EmbedField { name: loc.status_title.0.clone(), value: bygone_status, inline: false },
        );
        fields.push(
            EmbedField {
                name: loc.sensor_title.0.clone(),
                value: parts.get(BygonePart::Sensor).render_text(loc),
                inline: true,
            },
        );
        fields.push(
            EmbedField {
                name: loc.core_title.0.clone(),
                value: parts.get(BygonePart::Core).render_text(loc),
                inline: true,
            },
        );
        fields.push(
            EmbedField {
                name: loc.gun_title.0.clone(),
                value: parts.get(BygonePart::Gun).render_text(loc),
                inline: true,
            },
        );
        fields.push(
            EmbedField {
                name: loc.right_wing_title.0.clone(),
                value: parts.get(BygonePart::RightWing).render_text(loc),
                inline: true,
            },
        );
        fields.push(
            EmbedField {
                name: loc.left_wing_title.0.clone(),
                value: parts.get(BygonePart::LeftWing).render_text(loc),
                inline: true,
            },
        );
        let enemies = Embed { description: None, image_url: None, fields };
        let mut first_row: Vec<Button> = Vec::new();
        first_row.push(make_controls_button("🇸", parts.get(BygonePart::Sensor).health()));
        first_row.push(make_controls_button("🇨", parts.get(BygonePart::Core).health()));
        first_row.push(make_controls_button("🇬", parts.get(BygonePart::Gun).health()));
        let mut second_row: Vec<Button> = Vec::new();
        second_row.push(make_controls_button("🇷", parts.get(BygonePart::RightWing).health()));
        second_row.push(
            Button {
                custom_id: Some(String::from_str("status")),
                disabled: true,
                emoji: None,
                label: Some(String::from_str(" ")),
                style: ButtonStyle::Secondary,
            },
        );
        second_row.push(make_controls_button("🇱", parts.get(BygonePart::LeftWing).health()));
        let mut controls: Vec<ActionRow> = Vec::new();
        controls.push(ActionRow { components: first_row });
        controls.push(ActionRow { components: second_row });
        let mut embeds: Vec<Embed> = Vec::new();
        embeds.push(title);
        embeds.push(enemies);
        let r = RenderedMessagePure { embeds, components: controls };
        proof {
            let expected = upper_message(*loc, payload@);
            assert(r@.embeds[0].fields =~= expected.embeds[0].fields);
            assert(r@.embeds[1].fields =~= expected.embeds[1].fields);
            assert(r@.embeds =~= expected.embeds);
            assert(r@.components[0] =~= expected.components[0]);
            assert(r@.components[1] =~= expected.components[1]);
            assert(r@.components =~= expected.components);
        }
        r
    }

    /// The embed of the battle log: see `log_embed`.
    pub fn render_log(loc: &Localization, lines: &Vec<String>) -> (r: Embed)
        ensures
            r@ == log_embed(*loc, views(lines@)),
    {
        if lines.len() == 0 {
            let r = Embed { description: None, image_url: None, fields: Vec::new() };
            proof {
                assert(r@.fields =~= empty_embed().fields);
            }
            r
        } else {
            let mut battle_log_contents = String::from_str(" • ");
            battle_log_contents.append(join(lines, "\n • ").as_str());
            make_field_embed(loc.log_title.0.as_str(), battle_log_contents)
        }
    }

    /// The lower message of a battle that goes on.
    fn render_lower_message(loc: &Localization, payload: &OngoingGamePayload) -> (r:
        RenderedMessagePure)
        ensures
            r@ == lower_message(*loc, payload@),
    {
        let turn_progress = make_field_embed(
            loc.turn_progress_title.0.as_str(),
            render_turn_timer(0, PROGRESS_BAR_SIZE),
        );
        let log = Self::render_log(loc, &payload.battle_log_lines);
        let mut fields: Vec<EmbedField> = Vec::new();
        let n = payload.players.len();
        let mut i: usize = 0;
        while i < n
            invariant
                i <= n,
                n == payload.players@.len(),
                fields@.len() == i,
                forall|k: int|
                    0 <= k < i ==> (#[trigger] fields@[k])@ == player_fields(*loc, payload@.players)[k],
            decreases n - i,
        {
            fields.push(
                EmbedField {
                    name: payload.players[i].0.0.clone(),
                    value: payload.players[i].1.health().render_text(loc),
                    inline: false,
                },
            );
            i += 1;
        }
        let players = Embed { description: None, image_url: None, fields };
        let mut embeds: Vec<Embed> = Vec::new();
        embeds.push(turn_progress);
        embeds.push(log);
        embeds.push(players);
        let r = RenderedMessagePure { embeds, components: Vec::new() };
        proof {
            let expected = lower_message(*loc, payload@);
            assert(views(payload.battle_log_lines@) =~= payload@.battle_log_lines);
            assert(r@.embeds[2].fields =~= expected.embeds[2].fields);
            assert(r@.embeds =~= expected.embeds);
            assert(r@.components =~= expected.components);
        }
        r
    }

    /// The two messages of a battle that goes on: see `upper_message` and
    /// `lower_message`.
    pub fn render_ongoing_game(loc: &Localization, payload: &OngoingGamePayload) -> (r:
        RenderedGamePure)
        ensures
            r@ == (upper_message(*loc, payload@), lower_message(*loc, payload@)),
    {
        RenderedGamePure {
            upper_message: Self::render_upper_message(loc, payload),
            lower_message: Self::render_lower_message(loc, payload),
        }
    }

    /// What becomes of the messages of a battle that has ended, where
    /// `pick` names the line for a battle that has expired: the upper
    /// message says how the battle has ended, and the lower is deleted.
    pub fn render_finished_game_with(loc: &Localization, status: FinishedGameStatus, pick: usize) -> (r:
        RenderedGame)
        requires
            status == FinishedGameStatus::Expired ==> pick < loc.expired@.len(),
        ensures
            r@ == finished_game(*loc, status, pick as int),
    {
        let message = match status {
            FinishedGameStatus::Won => make_text_message(loc.won.0.as_str()),
            FinishedGameStatus::Lost => make_text_message(loc.lost.0.as_str()),
            FinishedGameStatus::Expired => make_text_message(loc.expired[pick].0.as_str()),
        };
        RenderedGame {
            upper_message: RenderedMessage::from(message),
            lower_message: RenderedMessage::Delete,
        }
    }

    /// What becomes of the messages of a battle that has ended; the dice
    /// pick the line for a battle that has expired.
    pub fn render_finished_game<D: Dice>(loc: &Localization, status: FinishedGameStatus, rng: &mut D) -> (r:
        RenderedGame)
        requires
            status == FinishedGameStatus::Expired ==> loc.expired@.len() > 0,
        ensures
            exists|pick: int|
                (status == FinishedGameStatus::Expired ==> 0 <= pick < loc.expired@.len()) && r@
                    == #[trigger] finished_game(*loc, status, pick),
    {
        let pick = match status {
            FinishedGameStatus::Expired => rng.between(0, loc.expired.len() - 1),
            _ => 0,
        };
        let r = Self::render_finished_game_with(loc, status, pick);
        proof {
            assert(r@ == finished_game(*loc, status, pick as int));
        }
        r
    }

    /// The upper message as it was, and the lower message of `previous`
    /// with the progress bar at `progress` percent as its first embed.
    /// Where `previous` has no lower message to write the bar into, an
    /// error names the guild.
    pub fn render_turn_progress(
        id: GuildId,
        previous: &RenderedGame,
        loc: &Localization,
        progress: i32,
    ) -> (r: Result<RenderedGame, GameRenderError>)
        ensures
            match previous.lower_message {
                RenderedMessage::Message(lower) => r.is_ok() && r.unwrap()@ == (
                    RenderedMessageView::Skip,
                    RenderedMessageView::Message(progress_message(lower@, *loc, progress)),
                ),
                _ => r.is_err() && r.unwrap_err().id == id && r.unwrap_err().msg@
                    == NO_LOWER_MESSAGE@,
            },
    {
        match &previous.lower_message {
            RenderedMessage::Message(lower) => {
                let mut lower_message = lower.clone();
                let filled = filled_count(progress);
                let progress_bar = render_turn_timer(filled, PROGRESS_BAR_SIZE);
                let progress_bar_embed = make_field_embed(
                    loc.turn_progress_title.0.as_str(),
                    progress_bar,
                );
                let ghost before = lower_message.embeds@;
                if lower_message.embeds.len() == 0 {
                    lower_message.embeds.push(progress_bar_embed);
                    proof {
                        assert(lower_message@.embeds =~= seq![progress_bar_embed@]);
                    }
                } else {
                    lower_message.embeds[0] = progress_bar_embed;
                    proof {
                        assert(lower_message@.embeds =~= lower@.embeds.update(
                            0,
                            progress_bar_embed@,
                        ));
                    }
                }
                Ok(
                    RenderedGame {
                        upper_message: RenderedMessage::Skip,
                        lower_message: RenderedMessage::from(lower_message),
                    },
                )
            },
            _ => Err(GameRenderError::new(id, String::from_str(NO_LOWER_MESSAGE))),
        }
    }

    /// The message that stands for itself: the time that the machine
    /// still needs, or that another battle goes on.
    pub fn render_oneshot(oneshot_type: OneshotType, loc: &Localization) -> (r: RenderedMessagePure)
        ensures
            r@ == oneshot_message(*loc, oneshot_type),
    {
        let oneshot_message = match oneshot_type {
            OneshotType::Cooldown(duration_left) => loc.battle_cooldown.insert_duration(
                duration_left,
            ),
            OneshotType::OtherGameInProgress => loc.other_battle_ongoing.clone(),
        };
        make_text_message(oneshot_message.0.as_str())
    }
}

} // verus!
