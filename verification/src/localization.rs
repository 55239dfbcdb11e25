//! Languages, localized lines with their placeholders, and the bundle of
//! strings that a battle is rendered with.

use vstd::prelude::*;
use vstd::string::*;
use crate::components::PlayerName;
use crate::text::{replace, replaced, str_eq, u64_to_string, decimal};

verus! {

#[derive(Clone, Copy, Debug, PartialEq, Eq, Structural, Hash)]
pub enum Language {
    Ru,
    En,
}

impl Language {
    /// The language of a two-letter code; `None` for any other string.
    pub fn from_str(code: &str) -> (r: Option<Self>)
        ensures
            r == if code@ == "en"@ {
                Some(Language::En)
            } else if code@ == "ru"@ {
                Some(Language::Ru)
            } else {
                None
            },
    {
        proof {
            reveal_strlit("en");
            reveal_strlit("ru");
        }
        if str_eq(code, "en") {
            Some(Language::En)
        } else if str_eq(code, "ru") {
            Some(Language::Ru)
        } else {
            None
        }
    }

    /// The two-letter code of the language.
    pub open spec fn code(self) -> Seq<char> {
        match self {
            Language::Ru => "ru"@,
            Language::En => "en"@,
        }
    }

    /// The two-letter code of the language.
    pub fn as_str(self) -> (r: &'static str)
        ensures
            r@ == self.code(),
    {
        match self {
            Language::Ru => "ru",
            Language::En => "en",
        }
    }

    /// The two-letter code of the language, owned.
    pub fn to_string(self) -> (r: String)
        ensures
            r@ == self.code(),
    {
        String::from_str(self.as_str())
    }
}

/// A line of text in some language, possibly with placeholders in braces.
#[derive(Debug)]
pub struct LocalizedLine(pub String);

impl Clone for LocalizedLine {
    fn clone(&self) -> (r: Self)
        ensures
            r == *self,
    {
        LocalizedLine(self.0.clone())
    }
}

impl View for LocalizedLine {
    type V = Seq<char>;

    open spec fn view(&self) -> Seq<char> {
        self.0@
    }
}

impl LocalizedLine {
    /// A line that holds the given text.
    pub fn from(line: &str) -> (r: Self)
        ensures
            r@ == line@,
    {
        LocalizedLine(String::from_str(line))
    }

    /// The text of the line.
    pub fn to_string(&self) -> (r: String)
        ensures
            r == self.0,
    {
        self.0.clone()
    }

    /// The line with each `{PLAYER_NAME}` replaced by the player's name.
    pub fn insert_player_name(&self, name: &PlayerName) -> (r: Self)
        ensures
            r@ == replaced(self@, "{PLAYER_NAME}"@, name@),
    {
        proof {
            reveal_strlit("{PLAYER_NAME}");
        }
        LocalizedLine(replace(self.0.as_str(), "{PLAYER_NAME}", name.0.as_str()))
    }

    /// The line with each `{ENEMY_NAME}` replaced by `name`.
    pub fn insert_enemy_name(&self, name: &str) -> (r: Self)
        ensures
            r@ == replaced(self@, "{ENEMY_NAME}"@, name@),
    {
        proof {
            reveal_strlit("{ENEMY_NAME}");
        }
        LocalizedLine(replace(self.0.as_str(), "{ENEMY_NAME}", name))
    }

    /// The line with each `{BYGONE03_PART_NAME}` replaced by `name`.
    pub fn insert_bygone_part_name(&self, name: &str) -> (r: Self)
        ensures
            r@ == replaced(self@, "{BYGONE03_PART_NAME}"@, name@),
    {
        proof {
            reveal_strlit("{BYGONE03_PART_NAME}");
        }
        LocalizedLine(replace(self.0.as_str(), "{BYGONE03_PART_NAME}", name))
    }

    /// The line with each `{DURATION}` replaced by the decimal number of
    /// whole seconds.
    pub fn insert_duration(&self, duration_secs: u64) -> (r: Self)
        ensures
            r@ == replaced(self@, "{DURATION}"@, decimal(duration_secs as nat)),
    {
        proof {
            reveal_strlit("{DURATION}");
        }
        let secs = u64_to_string(duration_secs);
        LocalizedLine(replace(self.0.as_str(), "{DURATION}", secs.as_str()))
    }
}

/// The strings that one battle is rendered with, in one language.
#[derive(Debug)]
pub struct Localization {
    pub attack: LocalizedLine,
    pub status_title: LocalizedLine,
    pub core_title: LocalizedLine,
    pub sensor_title: LocalizedLine,
    pub gun_title: LocalizedLine,
    pub left_wing_title: LocalizedLine,
    pub right_wing_title: LocalizedLine,
    pub core: LocalizedLine,
    pub sensor: LocalizedLine,
    pub gun: LocalizedLine,
    pub left_wing: LocalizedLine,
    pub right_wing: LocalizedLine,
    pub core_armored: LocalizedLine,
    pub core_exposed: LocalizedLine,
    pub core_burning: LocalizedLine,
    pub core_destroyed: LocalizedLine,
    pub turn_progress_title: LocalizedLine,
    pub log_title: LocalizedLine,
    pub player_join: Vec<LocalizedLine>,
    pub player_miss: Vec<LocalizedLine>,
    pub player_hit: Vec<LocalizedLine>,
    pub player_dead: Vec<LocalizedLine>,
    pub bygone03_miss: Vec<LocalizedLine>,
    pub bygone03_hit: Vec<LocalizedLine>,
    pub bygone03_dead: Vec<LocalizedLine>,
    pub title: LocalizedLine,
    pub lost: LocalizedLine,
    pub won: LocalizedLine,
    pub expired: Vec<LocalizedLine>,
    pub battle_cooldown: LocalizedLine,
    pub other_battle_ongoing: LocalizedLine,
}

/// The text of each line of a sequence.
pub open spec fn texts(lines: Seq<LocalizedLine>) -> Seq<Seq<char>> {
    lines.map_values(|line: LocalizedLine| line@)
}

/// A copy of each line, in the same order.
pub fn clone_lines(lines: &Vec<LocalizedLine>) -> (r: Vec<LocalizedLine>)
    ensures
        r@ == lines@,
{
    let mut out: Vec<LocalizedLine> = Vec::new();
    let n = lines.len();
    let mut i: usize = 0;
    while i < n
        invariant
            i <= n,
            n == lines@.len(),
            out@ == lines@.take(i as int),
        decreases n - i,
    {
        out.push(lines[i].clone());
        proof {
            assert(out@ =~= lines@.take(i + 1));
        }
        i += 1;
    }
    proof {
        assert(lines@.take(n as int) =~= lines@);
    }
    out
}

/// What a localization says: the text of each of its lines.
pub struct LocalizationView {
    pub attack: Seq<char>,
    pub status_title: Seq<char>,
    pub core_title: Seq<char>,
    pub sensor_title: Seq<char>,
    pub gun_title: Seq<char>,
    pub left_wing_title: Seq<char>,
    pub right_wing_title: Seq<char>,
    pub core: Seq<char>,
    pub sensor: Seq<char>,
    pub gun: Seq<char>,
    pub left_wing: Seq<char>,
    pub right_wing: Seq<char>,
    pub core_armored: Seq<char>,
    pub core_exposed: Seq<char>,
    pub core_burning: Seq<char>,
    pub core_destroyed: Seq<char>,
    pub turn_progress_title: Seq<char>,
    pub log_title: Seq<char>,
    pub player_join: Seq<Seq<char>>,
    pub player_miss: Seq<Seq<char>>,
    pub player_hit: Seq<Seq<char>>,
    pub player_dead: Seq<Seq<char>>,
    pub bygone03_miss: Seq<Seq<char>>,
    pub bygone03_hit: Seq<Seq<char>>,
    pub bygone03_dead: Seq<Seq<char>>,
    pub title: Seq<char>,
    pub lost: Seq<char>,
    pub won: Seq<char>,
    pub expired: Seq<Seq<char>>,
    pub battle_cooldown: Seq<char>,
    pub other_battle_ongoing: Seq<char>,
}

impl View for Localization {
    type V = LocalizationView;

    open spec fn view(&self) -> LocalizationView {
        LocalizationView {
            attack: self.attack@,
            status_title: self.status_title@,
            core_title: self.core_title@,
            sensor_title: self.sensor_title@,
            gun_title: self.gun_title@,
            left_wing_title: self.left_wing_title@,
            right_wing_title: self.right_wing_title@,
            core: self.core@,
            sensor: self.sensor@,
            gun: self.gun@,
            left_wing: self.left_wing@,
            right_wing: self.right_wing@,
            core_armored: self.core_armored@,
            core_exposed: self.core_exposed@,
            core_burning: self.core_burning@,
            core_destroyed: self.core_destroyed@,
            turn_progress_title: self.turn_progress_title@,
            log_title: self.log_title@,
            player_join: texts(self.player_join@),
            player_miss: texts(self.player_miss@),
            player_hit: texts(self.player_hit@),
            player_dead: texts(self.player_dead@),
            bygone03_miss: texts(self.bygone03_miss@),
            bygone03_hit: texts(self.bygone03_hit@),
            bygone03_dead: texts(self.bygone03_dead@),
            title: self.title@,
            lost: self.lost@,
            won: self.won@,
            expired: texts(self.expired@),
            battle_cooldown: self.battle_cooldown@,
            other_battle_ongoing: self.other_battle_ongoing@,
        }
    }
}

impl Localization {
    /// Whether every list of templates holds at least one line.
    pub open spec fn wf(self) -> bool {
        &&& self.player_join@.len() > 0
        &&& self.player_miss@.len() > 0
        &&& self.player_hit@.len() > 0
        &&& self.player_dead@.len() > 0
        &&& self.bygone03_miss@.len() > 0
        &&& self.bygone03_hit@.len() > 0
        &&& self.bygone03_dead@.len() > 0
        &&& self.expired@.len() > 0
    }
}

impl Clone for Localization {
    fn clone(&self) -> (r: Self)
        ensures
            r@ == self@,
            r.wf() == self.wf(),
    {
        Localization {
            attack: self.attack.clone(),
            status_title: self.status_title.clone(),
            core_title: self.core_title.clone(),
            sensor_title: self.sensor_title.clone(),
            gun_title: self.gun_title.clone(),
            left_wing_title: self.left_wing_title.clone(),
            right_wing_title: self.right_wing_title.clone(),
            core: self.core.clone(),
            sensor: self.sensor.clone(),
            gun: self.gun.clone(),
            left_wing: self.left_wing.clone(),
            right_wing: self.right_wing.clone(),
            core_armored: self.core_armored.clone(),
            core_exposed: self.core_exposed.clone(),
            core_burning: self.core_burning.clone(),
            core_destroyed: self.core_destroyed.clone(),
            turn_progress_title: self.turn_progress_title.clone(),
            log_title: self.log_title.clone(),
            player_join: clone_lines(&self.player_join),
            player_miss: clone_lines(&self.player_miss),
            player_hit: clone_lines(&self.player_hit),
            player_dead: clone_lines(&self.player_dead),
            bygone03_miss: clone_lines(&self.bygone03_miss),
            bygone03_hit: clone_lines(&self.bygone03_hit),
            bygone03_dead: clone_lines(&self.bygone03_dead),
            title: self.title.clone(),
            lost: self.lost.clone(),
            won: self.won.clone(),
            expired: clone_lines(&self.expired),
            battle_cooldown: self.battle_cooldown.clone(),
            other_battle_ongoing: self.other_battle_ongoing.clone(),
        }
    }
}

/// What can be shown as text in the language of a battle.
pub trait RenderText {
    /// The text that `render_text` produces.
    spec fn rendered(&self, localization: &Localization) -> Seq<char>;

    fn render_text(&self, localization: &Localization) -> (r: String)
        ensures
            r@ == self.rendered(localization),
    ;
}

/// The localizations that the battles can be held in.
#[derive(Debug)]
pub struct Localizations {
    ru: Localization,
    en: Localization,
}

impl Localizations {
    pub closed spec fn spec_get(&self, language: Language) -> &Localization {
        match language {
            Language::Ru => &self.ru,
            Language::En => &self.en,
        }
    }

    /// What the Russian localization says.
    pub open spec fn russian() -> LocalizationView {
        LocalizationView {
            attack: "АТК"@,
            status_title: "Статус"@,
            core_title: ":regional_indicator_c: ядро"@,
            sensor_title: ":regional_indicator_s: сенсор"@,
            gun_title: ":regional_indicator_g: орудие"@,
            left_wing_title: ":regional_indicator_l: левое крыло"@,
            right_wing_title: ":regional_indicator_r: правое крыло"@,
            core: "ядро"@,
            sensor: "сенсор"@,
            gun: "орудие"@,
            left_wing: "левое крыло"@,
            right_wing: "правое крыло"@,
            core_armored: "*защищено бронёй*"@,
            core_exposed: "*открыто!*"@,
            core_burning: "*ГОРИТ!*"@,
            core_destroyed: "*УНИЧТОЖЕНО!*"@,
            turn_progress_title: "Время хода"@,
            log_title: "Лог битвы"@,
            player_join: seq![
                "*{PLAYER_NAME}* рвётся в бой"@,
                "*{PLAYER_NAME}* смастерил(а) себе рогатку"@,
                "*{PLAYER_NAME}* всего лишь пытался(ась) выйти из Ройса"@,
            ],
            player_miss: seq![
                "*{PLAYER_NAME}* промахивается"@,
                "*{PLAYER_NAME}* использует стиль пьяного мастера"@,
                "*{PLAYER_NAME}* отвлекается на силуэт в окне"@,
            ],
            player_hit: seq![
                "*{PLAYER_NAME}* попадает в *{BYGONE03_PART_NAME}*"@,
                "*{PLAYER_NAME}* крушит *{BYGONE03_PART_NAME}* из своей маленькой катапульты"@,
                "*{PLAYER_NAME}* подбивает *{BYGONE03_PART_NAME}*"@,
            ],
            player_dead: seq![
                "*{PLAYER_NAME}* отправляется в отключку"@,
                "*{PLAYER_NAME}* идёт решать диалоговый паззл"@,
                "*{PLAYER_NAME}* получает разрыв попы массивными резиновыми шарами"@,
            ],
            bygone03_miss: seq![
                "*{ENEMY_NAME}* промахивается"@,
                "У *{ENEMY_NAME}* в глазах двоится"@,
                "*{ENEMY_NAME}* вспоминает молодость"@,
            ],
            bygone03_hit: seq![
                "*{ENEMY_NAME}* попадает в *{PLAYER_NAME}*"@,
                "*{ENEMY_NAME}* ласкает грудь резиновыми пулями, а *{PLAYER_NAME}* и не против"@,
                "*{ENEMY_NAME}* предлагает бесплатный массаж, *{PLAYER_NAME}* спешит записаться"@,
            ],
            bygone03_dead: seq![
                "Человек торжествует над машиной!"@,
            ],
            title: "УНИЧ...ТОЖИТЬ."@,
            lost: "*Так темно… Я что, умер? Здесь так спокойно.*"@,
            won: "*Человек торжествует над машиной!*"@,
            expired: seq![
                "*Ну все, хватит. Я больше не могу на это смотреть. Дайте мне пару минут, и я разберусь с этой штукой.*"@,
                "*Сердечко. Сердечко. Румяная кошачья мордочка. Сердечко*"@,
            ],
            battle_cooldown: "*_03 ремонтирует себя, будет готов через {DURATION} сек*"@,
            other_battle_ongoing: "*_03 занят: кто-то уже пытается выйти из Ройса!*"@,
        }
    }

    /// What the English localization says.
    pub open spec fn english() -> LocalizationView {
        LocalizationView {
            attack: "ATK"@,
            status_title: "Status"@,
            core_title: ":regional_indicator_c:ore"@,
            sensor_title: ":regional_indicator_s:ensor"@,
            gun_title: ":regional_indicator_g:un"@,
            left_wing_title: ":regional_indicator_l:eft wing"@,
            right_wing_title: ":regional_indicator_r:ight wing"@,
            core: "core"@,
            sensor: "sensor"@,
            gun: "gun"@,
            left_wing: "left wing"@,
            right_wing: "right wing"@,
            core_armored: "*armored*"@,
            core_exposed: "*exposed!*"@,
            core_burning: "*BURNING!*"@,
            core_destroyed: "*DESTROYED!*"@,
            turn_progress_title: "Turn timer"@,
            log_title: "Battle log"@,
            player_join: seq![
                "*{PLAYER_NAME}* joins the fray"@,
                "*{PLAYER_NAME}* have made themselves a slingshot"@,
                "*{PLAYER_NAME}* was just trying to leave Royce"@,
            ],
            player_miss: seq![
                "*{PLAYER_NAME}* misses"@,
                "*{PLAYER_NAME}* fights in a drunken style"@,
                "*{PLAYER_NAME}* gets distracted by a silhouette in the window"@,
            ],
            player_hit: seq![
                "*{PLAYER_NAME}* hits the *{BYGONE03_PART_NAME}*"@,
                "*{PLAYER_NAME}* smashes the *{BYGONE03_PART_NAME}* with their small catapult"@,
                "*{PLAYER_NAME}* damages the *{BYGONE03_PART_NAME}*"@,
            ],
            player_dead: seq![
                "*{PLAYER_NAME}* is knocked out"@,
                "*{PLAYER_NAME}* proceeds to solve the dialogue puzzle"@,
                "*{PLAYER_NAME}* gets their tushy ruined by the massive rubber balls"@,
            ],
            bygone03_miss: seq![
                "*{ENEMY_NAME}* misses"@,
                "*{ENEMY_NAME}* is seeing double"@,
                "*{ENEMY_NAME}* is reminiscing the old days"@,
            ],
            bygone03_hit: seq![
                "*{ENEMY_NAME}* hits *{PLAYER_NAME}*"@,
                "*{ENEMY_NAME}* gently punches *{PLAYER_NAME}* in the chest with a rubber bullet"@,
                "*{ENEMY_NAME}* offers *{PLAYER_NAME}* a free massage"@,
            ],
            bygone03_dead: seq![
                "Man triumphs over machine!"@,
            ],
            title: "DES...TROY."@,
            lost: "*This darkness… Am I… dead? It’s so peaceful.*"@,
            won: "*Man triumphs over machine!*"@,
            expired: seq![
                "*That’s it. I can’t watch this anymore. Just give me a moment, and I’ll deal with this thing.*"@,
                "*Heart. Heart. Blushing cat face. Heart.*"@,
            ],
            battle_cooldown: "*_03 is repairing itself, it will be ready in {DURATION}s*"@,
            other_battle_ongoing: "*_03 is busy: somebody is already trying to leave Royce!*"@,
        }
    }

    /// The Russian localization.
    fn make_russian() -> (r: Localization)
        ensures
            r@ == Self::russian(),
            r.wf(),
    {
        let mut player_join: Vec<LocalizedLine> = Vec::new();
        player_join.push(LocalizedLine::from("*{PLAYER_NAME}* рвётся в бой"));
        player_join.push(LocalizedLine::from("*{PLAYER_NAME}* смастерил(а) себе рогатку"));
        player_join.push(LocalizedLine::from("*{PLAYER_NAME}* всего лишь пытался(ась) выйти из Ройса"));
        let mut player_miss: Vec<LocalizedLine> = Vec::new();
        player_miss.push(LocalizedLine::from("*{PLAYER_NAME}* промахивается"));
        player_miss.push(LocalizedLine::from("*{PLAYER_NAME}* использует стиль пьяного мастера"));
        player_miss.push(LocalizedLine::from("*{PLAYER_NAME}* отвлекается на силуэт в окне"));
        let mut player_hit: Vec<LocalizedLine> = Vec::new();
        player_hit.push(LocalizedLine::from("*{PLAYER_NAME}* попадает в *{BYGONE03_PART_NAME}*"));
        player_hit.push(LocalizedLine::from("*{PLAYER_NAME}* крушит *{BYGONE03_PART_NAME}* из своей маленькой катапульты"));
        player_hit.push(LocalizedLine::from("*{PLAYER_NAME}* подбивает *{BYGONE03_PART_NAME}*"));
        let mut player_dead: Vec<LocalizedLine> = Vec::new();
        player_dead.push(LocalizedLine::from("*{PLAYER_NAME}* отправляется в отключку"));
        player_dead.push(LocalizedLine::from("*{PLAYER_NAME}* идёт решать диалоговый паззл"));
        player_dead.push(LocalizedLine::from("*{PLAYER_NAME}* получает разрыв попы массивными резиновыми шарами"));
        let mut bygone03_miss: Vec<LocalizedLine> = Vec::new();
        bygone03_miss.push(LocalizedLine::from("*{ENEMY_NAME}* промахивается"));
        bygone03_miss.push(LocalizedLine::from("У *{ENEMY_NAME}* в глазах двоится"));
        bygone03_miss.push(LocalizedLine::from("*{ENEMY_NAME}* вспоминает молодость"));
        let mut bygone03_hit: Vec<LocalizedLine> = Vec::new();
        bygone03_hit.push(LocalizedLine::from("*{ENEMY_NAME}* попадает в *{PLAYER_NAME}*"));
        bygone03_hit.push(LocalizedLine::from("*{ENEMY_NAME}* ласкает грудь резиновыми пулями, а *{PLAYER_NAME}* и не против"));
        bygone03_hit.push(LocalizedLine::from("*{ENEMY_NAME}* предлагает бесплатный массаж, *{PLAYER_NAME}* спешит записаться"));
        let mut bygone03_dead: Vec<LocalizedLine> = Vec::new();
        bygone03_dead.push(LocalizedLine::from("Человек торжествует над машиной!"));
        let mut expired: Vec<LocalizedLine> = Vec::new();
        expired.push(LocalizedLine::from("*Ну все, хватит. Я больше не могу на это смотреть. Дайте мне пару минут, и я разберусь с этой штукой.*"));
        expired.push(LocalizedLine::from("*Сердечко. Сердечко. Румяная кошачья мордочка. Сердечко*"));
        let r = Localization {
            attack: LocalizedLine::from("АТК"),
            status_title: LocalizedLine::from("Статус"),
            core_title: LocalizedLine::from(":regional_indicator_c: ядро"),
            sensor_title: LocalizedLine::from(":regional_indicator_s: сенсор"),
            gun_title: LocalizedLine::from(":regional_indicator_g: орудие"),
            left_wing_title: LocalizedLine::from(":regional_indicator_l: левое крыло"),
            right_wing_title: LocalizedLine::from(":regional_indicator_r: правое крыло"),
            core: LocalizedLine::from("ядро"),
            sensor: LocalizedLine::from("сенсор"),
            gun: LocalizedLine::from("орудие"),
            left_wing: LocalizedLine::from("левое крыло"),
            right_wing: LocalizedLine::from("правое крыло"),
            core_armored: LocalizedLine::from("*защищено бронёй*"),
            core_exposed: LocalizedLine::from("*открыто!*"),
            core_burning: LocalizedLine::from("*ГОРИТ!*"),
            core_destroyed: LocalizedLine::from("*УНИЧТОЖЕНО!*"),
            turn_progress_title: LocalizedLine::from("Время хода"),
            log_title: LocalizedLine::from("Лог битвы"),
            player_join,
            player_miss,
            player_hit,
            player_dead,
            bygone03_miss,
            bygone03_hit,
            bygone03_dead,
            title: LocalizedLine::from("УНИЧ...ТОЖИТЬ."),
            lost: LocalizedLine::from("*Так темно… Я что, умер? Здесь так спокойно.*"),
            won: LocalizedLine::from("*Человек торжествует над машиной!*"),
            expired,
            battle_cooldown: LocalizedLine::from("*_03 ремонтирует себя, будет готов через {DURATION} сек*"),
            other_battle_ongoing: LocalizedLine::from("*_03 занят: кто-то уже пытается выйти из Ройса!*"),
        };
        proof {
            assert(r@.player_join =~= Self::russian().player_join);
            assert(r@.player_miss =~= Self::russian().player_miss);
            assert(r@.player_hit =~= Self::russian().player_hit);
            assert(r@.player_dead =~= Self::russian().player_dead);
            assert(r@.bygone03_miss =~= Self::russian().bygone03_miss);
            assert(r@.bygone03_hit =~= Self::russian().bygone03_hit);
            assert(r@.bygone03_dead =~= Self::russian().bygone03_dead);
            assert(r@.expired =~= Self::russian().expired);
        }
        r
    }

    /// The English localization.
    fn make_english() -> (r: Localization)
        ensures
            r@ == Self::english(),
            r.wf(),
    {
        let mut player_join: Vec<LocalizedLine> = Vec::new();
        player_join.push(LocalizedLine::from("*{PLAYER_NAME}* joins the fray"));
        player_join.push(LocalizedLine::from("*{PLAYER_NAME}* have made themselves a slingshot"));
        player_join.push(LocalizedLine::from("*{PLAYER_NAME}* was just trying to leave Royce"));
        let mut player_miss: Vec<LocalizedLine> = Vec::new();
        player_miss.push(LocalizedLine::from("*{PLAYER_NAME}* misses"));
        player_miss.push(LocalizedLine::from("*{PLAYER_NAME}* fights in a drunken style"));
        player_miss.push(LocalizedLine::from("*{PLAYER_NAME}* gets distracted by a silhouette in the window"));
        let mut player_hit: Vec<LocalizedLine> = Vec::new();
        player_hit.push(LocalizedLine::from("*{PLAYER_NAME}* hits the *{BYGONE03_PART_NAME}*"));
        player_hit.push(LocalizedLine::from("*{PLAYER_NAME}* smashes the *{BYGONE03_PART_NAME}* with their small catapult"));
        player_hit.push(LocalizedLine::from("*{PLAYER_NAME}* damages the *{BYGONE03_PART_NAME}*"));
        let mut player_dead: Vec<LocalizedLine> = Vec::new();
        player_dead.push(LocalizedLine::from("*{PLAYER_NAME}* is knocked out"));
        player_dead.push(LocalizedLine::from("*{PLAYER_NAME}* proceeds to solve the dialogue puzzle"));
        player_dead.push(LocalizedLine::from("*{PLAYER_NAME}* gets their tushy ruined by the massive rubber balls"));
        let mut bygone03_miss: Vec<LocalizedLine> = Vec::new();
        bygone03_miss.push(LocalizedLine::from("*{ENEMY_NAME}* misses"));
        bygone03_miss.push(LocalizedLine::from("*{ENEMY_NAME}* is seeing double"));
        bygone03_miss.push(LocalizedLine::from("*{ENEMY_NAME}* is reminiscing the old days"));
        let mut bygone03_hit: Vec<LocalizedLine> = Vec::new();
        bygone03_hit.push(LocalizedLine::from("*{ENEMY_NAME}* hits *{PLAYER_NAME}*"));
        bygone03_hit.push(LocalizedLine::from("*{ENEMY_NAME}* gently punches *{PLAYER_NAME}* in the chest with a rubber bullet"));
        bygone03_hit.push(LocalizedLine::from("*{ENEMY_NAME}* offers *{PLAYER_NAME}* a free massage"));
        let mut bygone03_dead: Vec<LocalizedLine> = Vec::new();
        bygone03_dead.push(LocalizedLine::from("Man triumphs over machine!"));
        let mut expired: Vec<LocalizedLine> = Vec::new();
        expired.push(LocalizedLine::from("*That’s it. I can’t watch this anymore. Just give me a moment, and I’ll deal with this thing.*"));
        expired.push(LocalizedLine::from("*Heart. Heart. Blushing cat face. Heart.*"));
        let r = Localization {
            attack: LocalizedLine::from("ATK"),
            status_title: LocalizedLine::from("Status"),
            core_title: LocalizedLine::from(":regional_indicator_c:ore"),
            sensor_title: LocalizedLine::from(":regional_indicator_s:ensor"),
            gun_title: LocalizedLine::from(":regional_indicator_g:un"),
            left_wing_title: LocalizedLine::from(":regional_indicator_l:eft wing"),
            right_wing_title: LocalizedLine::from(":regional_indicator_r:ight wing"),
            core: LocalizedLine::from("core"),
            sensor: LocalizedLine::from("sensor"),
            gun: LocalizedLine::from("gun"),
            left_wing: LocalizedLine::from("left wing"),
            right_wing: LocalizedLine::from("right wing"),
            core_armored: LocalizedLine::from("*armored*"),
            core_exposed: LocalizedLine::from("*exposed!*"),
            core_burning: LocalizedLine::from("*BURNING!*"),
            core_destroyed: LocalizedLine::from("*DESTROYED!*"),
            turn_progress_title: LocalizedLine::from("Turn timer"),
            log_title: LocalizedLine::from("Battle log"),
            player_join,
            player_miss,
            player_hit,
            player_dead,
            bygone03_miss,
            bygone03_hit,
            bygone03_dead,
            title: LocalizedLine::from("DES...TROY."),
            lost: LocalizedLine::from("*This darkness… Am I… dead? It’s so peaceful.*"),
            won: LocalizedLine::from("*Man triumphs over machine!*"),
            expired,
            battle_cooldown: LocalizedLine::from("*_03 is repairing itself, it will be ready in {DURATION}s*"),
            other_battle_ongoing: LocalizedLine::from("*_03 is busy: somebody is already trying to leave Royce!*"),
        };
        proof {
            assert(r@.player_join =~= Self::english().player_join);
            assert(r@.player_miss =~= Self::english().player_miss);
            assert(r@.player_hit =~= Self::english().player_hit);
            assert(r@.player_dead =~= Self::english().player_dead);
            assert(r@.bygone03_miss =~= Self::english().bygone03_miss);
            assert(r@.bygone03_hit =~= Self::english().bygone03_hit);
            assert(r@.bygone03_dead =~= Self::english().bygone03_dead);
            assert(r@.expired =~= Self::english().expired);
        }
        r
    }

    /// The Russian and the English localization.
    pub fn new() -> (r: Self)
        ensures
            r.get(Language::Ru)@ == Self::russian(),
            r.get(Language::En)@ == Self::english(),
            r.get(Language::Ru).wf(),
            r.get(Language::En).wf(),
    {
        Localizations { ru: Self::make_russian(), en: Self::make_english() }
    }

    /// The localization of the language.
    #[verifier::when_used_as_spec(spec_get)]
    pub fn get(&self, language: Language) -> (r: &Localization)
        ensures
            r == self.get(language),
    {
        match language {
            Language::Ru => &self.ru,
            Language::En => &self.en,
        }
    }
}

} // verus!
