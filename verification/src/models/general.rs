//! The records of a dataset, and for each flat record the columns that it
//! fills and the cells that it holds.

use crate::schema::{col, opt_int_cell, opt_text_cell, Cell, Column, Kind};
use vstd::prelude::*;

verus! {

/// A number on the wire that need not be whole. A whole number that fits
/// `i64` is kept as such; any other is kept as its decimal text, so that no
/// digit is lost.
#[derive(Debug, Clone, PartialEq)]
pub enum Amount {
    Whole(i64),
    Decimal(String),
}

impl Default for Amount {
    fn default() -> (amount: Amount)
        ensures
            amount == Amount::Whole(0),
    {
        Amount::Whole(0)
    }
}

/// The whole dataset: one decoded snapshot of the source.
#[derive(Default, Debug, Clone, PartialEq)]
pub struct General {
    pub events: Vec<Event>,
    pub game_settings: GameSettings,
    pub phases: Vec<Phase>,
    pub teams: Vec<Team>,
    pub total_players: i64,
    pub elements: Vec<Element>,
    pub element_stats: Vec<ElementStat>,
    pub element_types: Vec<ElementType>,
}

/// One scheduling round. Fields that are only known once the round is
/// over are optional: absent means "not yet known", not zero.
#[derive(Default, Debug, Clone, PartialEq)]
pub struct Event {
    pub id: i64,
    pub name: String,
    pub deadline_time: String,
    pub average_entry_score: i64,
    pub finished: bool,
    pub data_checked: bool,
    pub highest_scoring_entry: Option<i64>,
    pub deadline_time_epoch: i64,
    pub deadline_time_game_offset: i64,
    pub highest_score: Option<i64>,
    pub is_previous: bool,
    pub is_current: bool,
    pub is_next: bool,
    pub chip_plays: Vec<ChipPlay>,
    pub most_selected: Option<i64>,
    pub most_transferred_in: Option<i64>,
    pub top_element: Option<i64>,
    pub top_element_info: Option<TopElementInfo>,
    pub transfers_made: i64,
    pub most_captained: Option<i64>,
    pub most_vice_captained: Option<i64>,
}

impl Event {
    /// The columns of the scalar fields of this record, in the order of its
    /// fields.
    #[verifier::opaque]
    pub open spec fn columns() -> Seq<Column> {
        seq![
            col("id", Kind::Integer),
            col("name", Kind::Text),
            col("deadline_time", Kind::Text),
            col("average_entry_score", Kind::Integer),
            col("finished", Kind::Boolean),
            col("data_checked", Kind::Boolean),
            col("highest_scoring_entry", Kind::OptionalInteger),
            col("deadline_time_epoch", Kind::Integer),
            col("deadline_time_game_offset", Kind::Integer),
            col("highest_score", Kind::OptionalInteger),
            col("is_previous", Kind::Boolean),
            col("is_current", Kind::Boolean),
            col("is_next", Kind::Boolean),
            col("most_selected", Kind::OptionalInteger),
            col("most_transferred_in", Kind::OptionalInteger),
            col("top_element", Kind::OptionalInteger),
            col("transfers_made", Kind::Integer),
            col("most_captained", Kind::OptionalInteger),
            col("most_vice_captained", Kind::OptionalInteger),
        ]
    }

    /// What this record holds under each of its columns.
    #[verifier::opaque]
    pub open spec fn cells(self) -> Seq<Cell> {
        seq![
            Cell::Int(self.id),
            Cell::Text(self.name@),
            Cell::Text(self.deadline_time@),
            Cell::Int(self.average_entry_score),
            Cell::Bool(self.finished),
            Cell::Bool(self.data_checked),
            opt_int_cell(self.highest_scoring_entry),
            Cell::Int(self.deadline_time_epoch),
            Cell::Int(self.deadline_time_game_offset),
            opt_int_cell(self.highest_score),
            Cell::Bool(self.is_previous),
            Cell::Bool(self.is_current),
            Cell::Bool(self.is_next),
            opt_int_cell(self.most_selected),
            opt_int_cell(self.most_transferred_in),
            opt_int_cell(self.top_element),
            Cell::Int(self.transfers_made),
            opt_int_cell(self.most_captained),
            opt_int_cell(self.most_vice_captained),
        ]
    }

    /// The columns, one by one.
    pub proof fn lemma_columns()
        ensures
            Event::columns().len() == 19,
            Event::columns()[0] == col("id", Kind::Integer),
            Event::columns()[1] == col("name", Kind::Text),
            Event::columns()[2] == col("deadline_time", Kind::Text),
            Event::columns()[3] == col("average_entry_score", Kind::Integer),
            Event::columns()[4] == col("finished", Kind::Boolean),
            Event::columns()[5] == col("data_checked", Kind::Boolean),
            Event::columns()[6] == col("highest_scoring_entry", Kind::OptionalInteger),
            Event::columns()[7] == col("deadline_time_epoch", Kind::Integer),
            Event::columns()[8] == col("deadline_time_game_offset", Kind::Integer),
            Event::columns()[9] == col("highest_score", Kind::OptionalInteger),
            Event::columns()[10] == col("is_previous", Kind::Boolean),
            Event::columns()[11] == col("is_current", Kind::Boolean),
            Event::columns()[12] == col("is_next", Kind::Boolean),
            Event::columns()[13] == col("most_selected", Kind::OptionalInteger),
            Event::columns()[14] == col("most_transferred_in", Kind::OptionalInteger),
            Event::columns()[15] == col("top_element", Kind::OptionalInteger),
            Event::columns()[16] == col("transfers_made", Kind::Integer),
            Event::columns()[17] == col("most_captained", Kind::OptionalInteger),
            Event::columns()[18] == col("most_vice_captained", Kind::OptionalInteger),
    {
        reveal(Event::columns);
    }

    /// The cells, one by one.
    pub proof fn lemma_cells(self)
        ensures
            self.cells().len() == 19,
            self.cells()[0] == Cell::Int(self.id),
            self.cells()[1] == Cell::Text(self.name@),
            self.cells()[2] == Cell::Text(self.deadline_time@),
            self.cells()[3] == Cell::Int(self.average_entry_score),
            self.cells()[4] == Cell::Bool(self.finished),
            self.cells()[5] == Cell::Bool(self.data_checked),
            self.cells()[6] == opt_int_cell(self.highest_scoring_entry),
            self.cells()[7] == Cell::Int(self.deadline_time_epoch),
            self.cells()[8] == Cell::Int(self.deadline_time_game_offset),
            self.cells()[9] == opt_int_cell(self.highest_score),
            self.cells()[10] == Cell::Bool(self.is_previous),
            self.cells()[11] == Cell::Bool(self.is_current),
            self.cells()[12] == Cell::Bool(self.is_next),
            self.cells()[13] == opt_int_cell(self.most_selected),
            self.cells()[14] == opt_int_cell(self.most_transferred_in),
            self.cells()[15] == opt_int_cell(self.top_element),
            self.cells()[16] == Cell::Int(self.transfers_made),
            self.cells()[17] == opt_int_cell(self.most_captained),
            self.cells()[18] == opt_int_cell(self.most_vice_captained),
    {
        reveal(Event::cells);
    }
}

/// How often one chip was played in a round.
#[derive(Default, Debug, Clone, PartialEq)]
pub struct ChipPlay {
    pub chip_name: String,
    pub num_played: i64,
}

impl ChipPlay {
    /// The columns of this record, in the order of its fields.
    #[verifier::opaque]
    pub open spec fn columns() -> Seq<Column> {
        seq![
            col("chip_name", Kind::Text),
            col("num_played", Kind::Integer),
        ]
    }

    /// What this record holds under each of its columns.
    #[verifier::opaque]
    pub open spec fn cells(self) -> Seq<Cell> {
        seq![
            Cell::Text(self.chip_name@),
            Cell::Int(self.num_played),
        ]
    }

    /// The columns, one by one.
    pub proof fn lemma_columns()
        ensures
            ChipPlay::columns().len() == 2,
            ChipPlay::columns()[0] == col("chip_name", Kind::Text),
            ChipPlay::columns()[1] == col("num_played", Kind::Integer),
    {
        reveal(ChipPlay::columns);
    }

    /// The cells, one by one.
    pub proof fn lemma_cells(self)
        ensures
            self.cells().len() == 2,
            self.cells()[0] == Cell::Text(self.chip_name@),
            self.cells()[1] == Cell::Int(self.num_played),
    {
        reveal(ChipPlay::cells);
    }
}

/// The best player of a round and the points scored.
#[derive(Default, Debug, Clone, PartialEq)]
pub struct TopElementInfo {
    pub id: i64,
    pub points: i64,
}

impl TopElementInfo {
    /// The columns of this record, in the order of its fields.
    #[verifier::opaque]
    pub open spec fn columns() -> Seq<Column> {
        seq![
            col("id", Kind::Integer),
            col("points", Kind::Integer),
        ]
    }

    /// What this record holds under each of its columns.
    #[verifier::opaque]
    pub open spec fn cells(self) -> Seq<Cell> {
        seq![
            Cell::Int(self.id),
            Cell::Int(self.points),
        ]
    }

    /// The columns, one by one.
    pub proof fn lemma_columns()
        ensures
            TopElementInfo::columns().len() == 2,
            TopElementInfo::columns()[0] == col("id", Kind::Integer),
            TopElementInfo::columns()[1] == col("points", Kind::Integer),
    {
        reveal(TopElementInfo::columns);
    }

    /// The cells, one by one.
    pub proof fn lemma_cells(self)
        ensures
            self.cells().len() == 2,
            self.cells()[0] == Cell::Int(self.id),
            self.cells()[1] == Cell::Int(self.points),
    {
        reveal(TopElementInfo::cells);
    }
}

/// The rules of the game: league sizes, scoring and squad limits.
#[derive(Default, Debug, Clone, PartialEq)]
pub struct GameSettings {
    pub league_join_private_max: i64,
    pub league_join_public_max: i64,
    pub league_max_size_public_classic: i64,
    pub league_max_size_public_h2_h: i64,
    pub league_max_size_private_h2_h: i64,
    pub league_max_ko_rounds_private_h2_h: i64,
    pub league_prefix_public: String,
    pub league_points_h2_h_win: i64,
    pub league_points_h2_h_lose: i64,
    pub league_points_h2_h_draw: i64,
    pub league_ko_first_instead_of_random: bool,
    pub cup_start_event_id: i64,
    pub cup_stop_event_id: i64,
    pub cup_qualifying_method: String,
    pub cup_type: String,
    pub squad_squadplay: i64,
    pub squad_squadsize: i64,
    pub squad_team_limit: i64,
    pub squad_total_spend: i64,
    pub ui_currency_multiplier: i64,
    pub ui_use_special_shirts: bool,
    pub ui_special_shirt_exclusions: Vec<Option<String>>,
    pub stats_form_days: i64,
    pub sys_vice_captain_enabled: bool,
    pub transfers_cap: i64,
    pub transfers_sell_on_fee: Amount,
    pub league_h2_h_tiebreak_stats: Vec<String>,
    pub timezone: String,
}

impl GameSettings {
    /// The columns of the scalar fields of this record, in the order of its
    /// fields.
    #[verifier::opaque]
    pub open spec fn columns() -> Seq<Column> {
        seq![
            col("league_join_private_max", Kind::Integer),
            col("league_join_public_max", Kind::Integer),
            col("league_max_size_public_classic", Kind::Integer),
            col("league_max_size_public_h2h", Kind::Integer),
            col("league_max_size_private_h2h", Kind::Integer),
            col("league_max_ko_rounds_private_h2h", Kind::Integer),
            col("league_prefix_public", Kind::Text),
            col("league_points_h2h_win", Kind::Integer),
            col("league_points_h2h_lose", Kind::Integer),
            col("league_points_h2h_draw", Kind::Integer),
            col("league_ko_first_instead_of_random", Kind::Boolean),
            col("cup_start_event_id", Kind::Integer),
            col("cup_stop_event_id", Kind::Integer),
            col("cup_qualifying_method", Kind::Text),
            col("cup_type", Kind::Text),
            col("squad_squadplay", Kind::Integer),
            col("squad_squadsize", Kind::Integer),
            col("squad_team_limit", Kind::Integer),
            col("squad_total_spend", Kind::Integer),
            col("ui_currency_multiplier", Kind::Integer),
            col("ui_use_special_shirts", Kind::Boolean),
            col("stats_form_days", Kind::Integer),
            col("sys_vice_captain_enabled", Kind::Boolean),
            col("transfers_cap", Kind::Integer),
            col("timezone", Kind::Text),
        ]
    }

    /// What this record holds under each of its columns.
    #[verifier::opaque]
    pub open spec fn cells(self) -> Seq<Cell> {
        seq![
            Cell::Int(self.league_join_private_max),
            Cell::Int(self.league_join_public_max),
            Cell::Int(self.league_max_size_public_classic),
            Cell::Int(self.league_max_size_public_h2_h),
            Cell::Int(self.league_max_size_private_h2_h),
            Cell::Int(self.league_max_ko_rounds_private_h2_h),
            Cell::Text(self.league_prefix_public@),
            Cell::Int(self.league_points_h2_h_win),
            Cell::Int(self.league_points_h2_h_lose),
            Cell::Int(self.league_points_h2_h_draw),
            Cell::Bool(self.league_ko_first_instead_of_random),
            Cell::Int(self.cup_start_event_id),
            Cell::Int(self.cup_stop_event_id),
            Cell::Text(self.cup_qualifying_method@),
            Cell::Text(self.cup_type@),
            Cell::Int(self.squad_squadplay),
            Cell::Int(self.squad_squadsize),
            Cell::Int(self.squad_team_limit),
            Cell::Int(self.squad_total_spend),
            Cell::Int(self.ui_currency_multiplier),
            Cell::Bool(self.ui_use_special_shirts),
            Cell::Int(self.stats_form_days),
            Cell::Bool(self.sys_vice_captain_enabled),
            Cell::Int(self.transfers_cap),
            Cell::Text(self.timezone@),
        ]
    }

    /// The columns, one by one.
    pub proof fn lemma_columns()
        ensures
            GameSettings::columns().len() == 25,
            GameSettings::columns()[0] == col("league_join_private_max", Kind::Integer),
            GameSettings::columns()[1] == col("league_join_public_max", Kind::Integer),
            GameSettings::columns()[2] == col("league_max_size_public_classic", Kind::Integer),
            GameSettings::columns()[3] == col("league_max_size_public_h2h", Kind::Integer),
            GameSettings::columns()[4] == col("league_max_size_private_h2h", Kind::Integer),
            GameSettings::columns()[5] == col("league_max_ko_rounds_private_h2h", Kind::Integer),
            GameSettings::columns()[6] == col("league_prefix_public", Kind::Text),
            GameSettings::columns()[7] == col("league_points_h2h_win", Kind::Integer),
            GameSettings::columns()[8] == col("league_points_h2h_lose", Kind::Integer),
            GameSettings::columns()[9] == col("league_points_h2h_draw", Kind::Integer),
            GameSettings::columns()[10] == col("league_ko_first_instead_of_random", Kind::Boolean),
            GameSettings::columns()[11] == col("cup_start_event_id", Kind::Integer),
            GameSettings::columns()[12] == col("cup_stop_event_id", Kind::Integer),
            GameSettings::columns()[13] == col("cup_qualifying_method", Kind::Text),
            GameSettings::columns()[14] == col("cup_type", Kind::Text),
            GameSettings::columns()[15] == col("squad_squadplay", Kind::Integer),
            GameSettings::columns()[16] == col("squad_squadsize", Kind::Integer),
            GameSettings::columns()[17] == col("squad_team_limit", Kind::Integer),
            GameSettings::columns()[18] == col("squad_total_spend", Kind::Integer),
            GameSettings::columns()[19] == col("ui_currency_multiplier", Kind::Integer),
            GameSettings::columns()[20] == col("ui_use_special_shirts", Kind::Boolean),
            GameSettings::columns()[21] == col("stats_form_days", Kind::Integer),
            GameSettings::columns()[22] == col("sys_vice_captain_enabled", Kind::Boolean),
            GameSettings::columns()[23] == col("transfers_cap", Kind::Integer),
            GameSettings::columns()[24] == col("timezone", Kind::Text),
    {
        reveal(GameSettings::columns);
    }

    /// The cells, one by one.
    pub proof fn lemma_cells(self)
        ensures
            self.cells().len() == 25,
            self.cells()[0] == Cell::Int(self.league_join_private_max),
            self.cells()[1] == Cell::Int(self.league_join_public_max),
            self.cells()[2] == Cell::Int(self.league_max_size_public_classic),
            self.cells()[3] == Cell::Int(self.league_max_size_public_h2_h),
            self.cells()[4] == Cell::Int(self.league_max_size_private_h2_h),
            self.cells()[5] == Cell::Int(self.league_max_ko_rounds_private_h2_h),
            self.cells()[6] == Cell::Text(self.league_prefix_public@),
            self.cells()[7] == Cell::Int(self.league_points_h2_h_win),
            self.cells()[8] == Cell::Int(self.league_points_h2_h_lose),
            self.cells()[9] == Cell::Int(self.league_points_h2_h_draw),
            self.cells()[10] == Cell::Bool(self.league_ko_first_instead_of_random),
            self.cells()[11] == Cell::Int(self.cup_start_event_id),
            self.cells()[12] == Cell::Int(self.cup_stop_event_id),
            self.cells()[13] == Cell::Text(self.cup_qualifying_method@),
            self.cells()[14] == Cell::Text(self.cup_type@),
            self.cells()[15] == Cell::Int(self.squad_squadplay),
            self.cells()[16] == Cell::Int(self.squad_squadsize),
            self.cells()[17] == Cell::Int(self.squad_team_limit),
            self.cells()[18] == Cell::Int(self.squad_total_spend),
            self.cells()[19] == Cell::Int(self.ui_currency_multiplier),
            self.cells()[20] == Cell::Bool(self.ui_use_special_shirts),
            self.cells()[21] == Cell::Int(self.stats_form_days),
            self.cells()[22] == Cell::Bool(self.sys_vice_captain_enabled),
            self.cells()[23] == Cell::Int(self.transfers_cap),
            self.cells()[24] == Cell::Text(self.timezone@),
    {
        reveal(GameSettings::cells);
    }
}

/// A span of rounds.
#[derive(Default, Debug, Clone, PartialEq)]
pub struct Phase {
    pub id: i64,
    pub name: String,
    pub start_event: i64,
    pub stop_event: i64,
}

impl Phase {
    /// The columns of this record, in the order of its fields.
    #[verifier::opaque]
    pub open spec fn columns() -> Seq<Column> {
        seq![
            col("id", Kind::Integer),
            col("name", Kind::Text),
            col("start_event", Kind::Integer),
            col("stop_event", Kind::Integer),
        ]
    }

    /// What this record holds under each of its columns.
    #[verifier::opaque]
    pub open spec fn cells(self) -> Seq<Cell> {
        seq![
            Cell::Int(self.id),
            Cell::Text(self.name@),
            Cell::Int(self.start_event),
            Cell::Int(self.stop_event),
        ]
    }

    /// The columns, one by one.
    pub proof fn lemma_columns()
        ensures
            Phase::columns().len() == 4,
            Phase::columns()[0] == col("id", Kind::Integer),
            Phase::columns()[1] == col("name", Kind::Text),
            Phase::columns()[2] == col("start_event", Kind::Integer),
            Phase::columns()[3] == col("stop_event", Kind::Integer),
    {
        reveal(Phase::columns);
    }

    /// The cells, one by one.
    pub proof fn lemma_cells(self)
        ensures
            self.cells().len() == 4,
            self.cells()[0] == Cell::Int(self.id),
            self.cells()[1] == Cell::Text(self.name@),
            self.cells()[2] == Cell::Int(self.start_event),
            self.cells()[3] == Cell::Int(self.stop_event),
    {
        reveal(Phase::cells);
    }
}

/// A club.
#[derive(Default, Debug, Clone, PartialEq)]
pub struct Team {
    pub code: i64,
    pub draw: i64,
    pub form: Option<String>,
    pub id: i64,
    pub loss: i64,
    pub name: String,
    pub played: i64,
    pub points: i64,
    pub position: i64,
    pub short_name: String,
    pub strength: i64,
    pub team_division: Option<String>,
    pub unavailable: bool,
    pub win: i64,
    pub strength_overall_home: i64,
    pub strength_overall_away: i64,
    pub strength_attack_home: i64,
    pub strength_attack_away: i64,
    pub strength_defence_home: i64,
    pub strength_defence_away: i64,
    pub pulse_id: i64,
}

impl Team {
    /// The columns of this record, in the order of its fields.
    #[verifier::opaque]
    pub open spec fn columns() -> Seq<Column> {
        seq![
            col("code", Kind::Integer),
            col("draw", Kind::Integer),
            col("form", Kind::OptionalText),
            col("id", Kind::Integer),
            col("loss", Kind::Integer),
            col("name", Kind::Text),
            col("played", Kind::Integer),
            col("points", Kind::Integer),
            col("position", Kind::Integer),
            col("short_name", Kind::Text),
            col("strength", Kind::Integer),
            col("team_division", Kind::OptionalText),
            col("unavailable", Kind::Boolean),
            col("win", Kind::Integer),
            col("strength_overall_home", Kind::Integer),
            col("strength_overall_away", Kind::Integer),
            col("strength_attack_home", Kind::Integer),
            col("strength_attack_away", Kind::Integer),
            col("strength_defence_home", Kind::Integer),
            col("strength_defence_away", Kind::Integer),
            col("pulse_id", Kind::Integer),
        ]
    }

    /// What this record holds under each of its columns.
    #[verifier::opaque]
    pub open spec fn cells(self) -> Seq<Cell> {
        seq![
            Cell::Int(self.code),
            Cell::Int(self.draw),
            opt_text_cell(self.form),
            Cell::Int(self.id),
            Cell::Int(self.loss),
            Cell::Text(self.name@),
            Cell::Int(self.played),
            Cell::Int(self.points),
            Cell::Int(self.position),
            Cell::Text(self.short_name@),
            Cell::Int(self.strength),
            opt_text_cell(self.team_division),
            Cell::Bool(self.unavailable),
            Cell::Int(self.win),
            Cell::Int(self.strength_overall_home),
            Cell::Int(self.strength_overall_away),
            Cell::Int(self.strength_attack_home),
            Cell::Int(self.strength_attack_away),
            Cell::Int(self.strength_defence_home),
            Cell::Int(self.strength_defence_away),
            Cell::Int(self.pulse_id),
        ]
    }

    /// The columns, one by one.
    pub proof fn lemma_columns()
        ensures
            Team::columns().len() == 21,
            Team::columns()[0] == col("code", Kind::Integer),
            Team::columns()[1] == col("draw", Kind::Integer),
            Team::columns()[2] == col("form", Kind::OptionalText),
            Team::columns()[3] == col("id", Kind::Integer),
            Team::columns()[4] == col("loss", Kind::Integer),
            Team::columns()[5] == col("name", Kind::Text),
            Team::columns()[6] == col("played", Kind::Integer),
            Team::columns()[7] == col("points", Kind::Integer),
            Team::columns()[8] == col("position", Kind::Integer),
            Team::columns()[9] == col("short_name", Kind::Text),
            Team::columns()[10] == col("strength", Kind::Integer),
            Team::columns()[11] == col("team_division", Kind::OptionalText),
            Team::columns()[12] == col("unavailable", Kind::Boolean),
            Team::columns()[13] == col("win", Kind::Integer),
            Team::columns()[14] == col("strength_overall_home", Kind::Integer),
            Team::columns()[15] == col("strength_overall_away", Kind::Integer),
            Team::columns()[16] == col("strength_attack_home", Kind::Integer),
            Team::columns()[17] == col("strength_attack_away", Kind::Integer),
            Team::columns()[18] == col("strength_defence_home", Kind::Integer),
            Team::columns()[19] == col("strength_defence_away", Kind::Integer),
            Team::columns()[20] == col("pulse_id", Kind::Integer),
    {
        reveal(Team::columns);
    }

    /// The cells, one by one.
    pub proof fn lemma_cells(self)
        ensures
            self.cells().len() == 21,
            self.cells()[0] == Cell::Int(self.code),
            self.cells()[1] == Cell::Int(self.draw),
            self.cells()[2] == opt_text_cell(self.form),
            self.cells()[3] == Cell::Int(self.id),
            self.cells()[4] == Cell::Int(self.loss),
            self.cells()[5] == Cell::Text(self.name@),
            self.cells()[6] == Cell::Int(self.played),
            self.cells()[7] == Cell::Int(self.points),
            self.cells()[8] == Cell::Int(self.position),
            self.cells()[9] == Cell::Text(self.short_name@),
            self.cells()[10] == Cell::Int(self.strength),
            self.cells()[11] == opt_text_cell(self.team_division),
            self.cells()[12] == Cell::Bool(self.unavailable),
            self.cells()[13] == Cell::Int(self.win),
            self.cells()[14] == Cell::Int(self.strength_overall_home),
            self.cells()[15] == Cell::Int(self.strength_overall_away),
            self.cells()[16] == Cell::Int(self.strength_attack_home),
            self.cells()[17] == Cell::Int(self.strength_attack_away),
            self.cells()[18] == Cell::Int(self.strength_defence_home),
            self.cells()[19] == Cell::Int(self.strength_defence_away),
            self.cells()[20] == Cell::Int(self.pulse_id),
    {
        reveal(Team::cells);
    }
}

/// A player. This is the record that a table holds, one row each, under
/// the columns of [`Element::columns`].
#[derive(Default, Debug, Clone, PartialEq)]
pub struct Element {
    pub chance_of_playing_next_round: Option<i64>,
    pub chance_of_playing_this_round: Option<i64>,
    pub code: i64,
    pub cost_change_event: i64,
    pub cost_change_event_fall: i64,
    pub cost_change_start: i64,
    pub cost_change_start_fall: i64,
    pub dreamteam_count: i64,
    pub element_type: i64,
    pub ep_next: String,
    pub ep_this: String,
    pub event_points: i64,
    pub first_name: String,
    pub form: String,
    pub id: i64,
    pub in_dreamteam: bool,
    pub news: String,
    pub news_added: Option<String>,
    pub now_cost: i64,
    pub photo: String,
    pub points_per_game: String,
    pub second_name: String,
    pub selected_by_percent: String,
    pub special: bool,
    pub squad_number: Option<String>,
    pub status: String,
    pub team: i64,
    pub team_code: i64,
    pub total_points: i64,
    pub transfers_in: i64,
    pub transfers_in_event: i64,
    pub transfers_out: i64,
    pub transfers_out_event: i64,
    pub value_form: String,
    pub value_season: String,
    pub web_name: String,
    pub minutes: i64,
    pub goals_scored: i64,
    pub assists: i64,
    pub clean_sheets: i64,
    pub goals_conceded: i64,
    pub own_goals: i64,
    pub penalties_saved: i64,
    pub penalties_missed: i64,
    pub yellow_cards: i64,
    pub red_cards: i64,
    pub saves: i64,
    pub bonus: i64,
    pub bps: i64,
    pub influence: String,
    pub creativity: String,
    pub threat: String,
    pub ict_index: String,
    pub influence_rank: i64,
    pub influence_rank_type: i64,
    pub creativity_rank: i64,
    pub creativity_rank_type: i64,
    pub threat_rank: i64,
    pub threat_rank_type: i64,
    pub ict_index_rank: i64,
    pub ict_index_rank_type: i64,
    pub corners_and_indirect_freekicks_order: Option<i64>,
    pub corners_and_indirect_freekicks_text: String,
    pub direct_freekicks_order: Option<i64>,
    pub direct_freekicks_text: String,
    pub penalties_order: Option<i64>,
    pub penalties_text: String,
}

impl Element {
    /// The columns of this record, in the order of its fields.
    #[verifier::opaque]
    pub open spec fn columns() -> Seq<Column> {
        seq![
            col("chance_of_playing_next_round", Kind::OptionalInteger),
            col("chance_of_playing_this_round", Kind::OptionalInteger),
            col("code", Kind::Integer),
            col("cost_change_event", Kind::Integer),
            col("cost_change_event_fall", Kind::Integer),
            col("cost_change_start", Kind::Integer),
            col("cost_change_start_fall", Kind::Integer),
            col("dreamteam_count", Kind::Integer),
            col("element_type", Kind::Integer),
            col("ep_next", Kind::NumericText),
            col("ep_this", Kind::NumericText),
            col("event_points", Kind::Integer),
            col("first_name", Kind::Text),
            col("form", Kind::NumericText),
            col("id", Kind::Integer),
            col("in_dreamteam", Kind::Boolean),
            col("news", Kind::Text),
            col("news_added", Kind::OptionalText),
            col("now_cost", Kind::Integer),
            col("photo", Kind::Text),
            col("points_per_game", Kind::NumericText),
            col("second_name", Kind::Text),
            col("selected_by_percent", Kind::NumericText),
            col("special", Kind::Boolean),
            col("squad_number", Kind::OptionalText),
            col("status", Kind::Text),
            col("team", Kind::Integer),
            col("team_code", Kind::Integer),
            col("total_points", Kind::Integer),
            col("transfers_in", Kind::Integer),
            col("transfers_in_event", Kind::Integer),
            col("transfers_out", Kind::Integer),
            col("transfers_out_event", Kind::Integer),
            col("value_form", Kind::NumericText),
            col("value_season", Kind::NumericText),
            col("web_name", Kind::Text),
            col("minutes", Kind::Integer),
            col("goals_scored", Kind::Integer),
            col("assists", Kind::Integer),
            col("clean_sheets", Kind::Integer),
            col("goals_conceded", Kind::Integer),
            col("own_goals", Kind::Integer),
            col("penalties_saved", Kind::Integer),
            col("penalties_missed", Kind::Integer),
            col("yellow_cards", Kind::Integer),
            col("red_cards", Kind::Integer),
            col("saves", Kind::Integer),
            col("bonus", Kind::Integer),
            col("bps", Kind::Integer),
            col("influence", Kind::NumericText),
            col("creativity", Kind::NumericText),
            col("threat", Kind::NumericText),
            col("ict_index", Kind::NumericText),
            col("influence_rank", Kind::Integer),
            col("influence_rank_type", Kind::Integer),
            col("creativity_rank", Kind::Integer),
            col("creativity_rank_type", Kind::Integer),
            col("threat_rank", Kind::Integer),
            col("threat_rank_type", Kind::Integer),
            col("ict_index_rank", Kind::Integer),
            col("ict_index_rank_type", Kind::Integer),
            col("corners_and_indirect_freekicks_order", Kind::OptionalInteger),
            col("corners_and_indirect_freekicks_text", Kind::Text),
            col("direct_freekicks_order", Kind::OptionalInteger),
            col("direct_freekicks_text", Kind::Text),
            col("penalties_order", Kind::OptionalInteger),
            col("penalties_text", Kind::Text),
        ]
    }

    /// What this record holds under each of its columns.
    #[verifier::opaque]
    pub open spec fn cells(self) -> Seq<Cell> {
        seq![
            opt_int_cell(self.chance_of_playing_next_round),
            opt_int_cell(self.chance_of_playing_this_round),
            Cell::Int(self.code),
            Cell::Int(self.cost_change_event),
            Cell::Int(self.cost_change_event_fall),
            Cell::Int(self.cost_change_start),
            Cell::Int(self.cost_change_start_fall),
            Cell::Int(self.dreamteam_count),
            Cell::Int(self.element_type),
            Cell::Text(self.ep_next@),
            Cell::Text(self.ep_this@),
            Cell::Int(self.event_points),
            Cell::Text(self.first_name@),
            Cell::Text(self.form@),
            Cell::Int(self.id),
            Cell::Bool(self.in_dreamteam),
            Cell::Text(self.news@),
            opt_text_cell(self.news_added),
            Cell::Int(self.now_cost),
            Cell::Text(self.photo@),
            Cell::Text(self.points_per_game@),
            Cell::Text(self.second_name@),
            Cell::Text(self.selected_by_percent@),
            Cell::Bool(self.special),
            opt_text_cell(self.squad_number),
            Cell::Text(self.status@),
            Cell::Int(self.team),
            Cell::Int(self.team_code),
            Cell::Int(self.total_points),
            Cell::Int(self.transfers_in),
            Cell::Int(self.transfers_in_event),
            Cell::Int(self.transfers_out),
            Cell::Int(self.transfers_out_event),
            Cell::Text(self.value_form@),
            Cell::Text(self.value_season@),
            Cell::Text(self.web_name@),
            Cell::Int(self.minutes),
            Cell::Int(self.goals_scored),
            Cell::Int(self.assists),
            Cell::Int(self.clean_sheets),
            Cell::Int(self.goals_conceded),
            Cell::Int(self.own_goals),
            Cell::Int(self.penalties_saved),
            Cell::Int(self.penalties_missed),
            Cell::Int(self.yellow_cards),
            Cell::Int(self.red_cards),
            Cell::Int(self.saves),
            Cell::Int(self.bonus),
            Cell::Int(self.bps),
            Cell::Text(self.influence@),
            Cell::Text(self.creativity@),
            Cell::Text(self.threat@),
            Cell::Text(self.ict_index@),
            Cell::Int(self.influence_rank),
            Cell::Int(self.influence_rank_type),
            Cell::Int(self.creativity_rank),
            Cell::Int(self.creativity_rank_type),
            Cell::Int(self.threat_rank),
            Cell::Int(self.threat_rank_type),
            Cell::Int(self.ict_index_rank),
            Cell::Int(self.ict_index_rank_type),
            opt_int_cell(self.corners_and_indirect_freekicks_order),
            Cell::Text(self.corners_and_indirect_freekicks_text@),
            opt_int_cell(self.direct_freekicks_order),
            Cell::Text(self.direct_freekicks_text@),
            opt_int_cell(self.penalties_order),
            Cell::Text(self.penalties_text@),
        ]
    }

    /// The columns, one by one.
    pub proof fn lemma_columns()
        ensures
            Element::columns().len() == 67,
            Element::columns()[0] == col("chance_of_playing_next_round", Kind::OptionalInteger),
            Element::columns()[1] == col("chance_of_playing_this_round", Kind::OptionalInteger),
            Element::columns()[2] == col("code", Kind::Integer),
            Element::columns()[3] == col("cost_change_event", Kind::Integer),
            Element::columns()[4] == col("cost_change_event_fall", Kind::Integer),
            Element::columns()[5] == col("cost_change_start", Kind::Integer),
            Element::columns()[6] == col("cost_change_start_fall", Kind::Integer),
            Element::columns()[7] == col("dreamteam_count", Kind::Integer),
            Element::columns()[8] == col("element_type", Kind::Integer),
            Element::columns()[9] == col("ep_next", Kind::NumericText),
            Element::columns()[10] == col("ep_this", Kind::NumericText),
            Element::columns()[11] == col("event_points", Kind::Integer),
            Element::columns()[12] == col("first_name", Kind::Text),
            Element::columns()[13] == col("form", Kind::NumericText),
            Element::columns()[14] == col("id", Kind::Integer),
            Element::columns()[15] == col("in_dreamteam", Kind::Boolean),
            Element::columns()[16] == col("news", Kind::Text),
            Element::columns()[17] == col("news_added", Kind::OptionalText),
            Element::columns()[18] == col("now_cost", Kind::Integer),
            Element::columns()[19] == col("photo", Kind::Text),
            Element::columns()[20] == col("points_per_game", Kind::NumericText),
            Element::columns()[21] == col("second_name", Kind::Text),
            Element::columns()[22] == col("selected_by_percent", Kind::NumericText),
            Element::columns()[23] == col("special", Kind::Boolean),
            Element::columns()[24] == col("squad_number", Kind::OptionalText),
            Element::columns()[25] == col("status", Kind::Text),
            Element::columns()[26] == col("team", Kind::Integer),
            Element::columns()[27] == col("team_code", Kind::Integer),
            Element::columns()[28] == col("total_points", Kind::Integer),
            Element::columns()[29] == col("transfers_in", Kind::Integer),
            Element::columns()[30] == col("transfers_in_event", Kind::Integer),
            Element::columns()[31] == col("transfers_out", Kind::Integer),
            Element::columns()[32] == col("transfers_out_event", Kind::Integer),
            Element::columns()[33] == col("value_form", Kind::NumericText),
            Element::columns()[34] == col("value_season", Kind::NumericText),
            Element::columns()[35] == col("web_name", Kind::Text),
            Element::columns()[36] == col("minutes", Kind::Integer),
            Element::columns()[37] == col("goals_scored", Kind::Integer),
            Element::columns()[38] == col("assists", Kind::Integer),
            Element::columns()[39] == col("clean_sheets", Kind::Integer),
            Element::columns()[40] == col("goals_conceded", Kind::Integer),
            Element::columns()[41] == col("own_goals", Kind::Integer),
            Element::columns()[42] == col("penalties_saved", Kind::Integer),
            Element::columns()[43] == col("penalties_missed", Kind::Integer),
            Element::columns()[44] == col("yellow_cards", Kind::Integer),
            Element::columns()[45] == col("red_cards", Kind::Integer),
            Element::columns()[46] == col("saves", Kind::Integer),
            Element::columns()[47] == col("bonus", Kind::Integer),
            Element::columns()[48] == col("bps", Kind::Integer),
            Element::columns()[49] == col("influence", Kind::NumericText),
            Element::columns()[50] == col("creativity", Kind::NumericText),
            Element::columns()[51] == col("threat", Kind::NumericText),
            Element::columns()[52] == col("ict_index", Kind::NumericText),
            Element::columns()[53] == col("influence_rank", Kind::Integer),
            Element::columns()[54] == col("influence_rank_type", Kind::Integer),
            Element::columns()[55] == col("creativity_rank", Kind::Integer),
            Element::columns()[56] == col("creativity_rank_type", Kind::Integer),
            Element::columns()[57] == col("threat_rank", Kind::Integer),
            Element::columns()[58] == col("threat_rank_type", Kind::Integer),
            Element::columns()[59] == col("ict_index_rank", Kind::Integer),
            Element::columns()[60] == col("ict_index_rank_type", Kind::Integer),
            Element::columns()[61] == col("corners_and_indirect_freekicks_order", Kind::OptionalInteger),
            Element::columns()[62] == col("corners_and_indirect_freekicks_text", Kind::Text),
            Element::columns()[63] == col("direct_freekicks_order", Kind::OptionalInteger),
            Element::columns()[64] == col("direct_freekicks_text", Kind::Text),
            Element::columns()[65] == col("penalties_order", Kind::OptionalInteger),
            Element::columns()[66] == col("penalties_text", Kind::Text),
    {
        reveal(Element::columns);
    }

    /// The cells, one by one.
    pub proof fn lemma_cells(self)
        ensures
            self.cells().len() == 67,
            self.cells()[0] == opt_int_cell(self.chance_of_playing_next_round),
            self.cells()[1] == opt_int_cell(self.chance_of_playing_this_round),
            self.cells()[2] == Cell::Int(self.code),
            self.cells()[3] == Cell::Int(self.cost_change_event),
            self.cells()[4] == Cell::Int(self.cost_change_event_fall),
            self.cells()[5] == Cell::Int(self.cost_change_start),
            self.cells()[6] == Cell::Int(self.cost_change_start_fall),
            self.cells()[7] == Cell::Int(self.dreamteam_count),
            self.cells()[8] == Cell::Int(self.element_type),
            self.cells()[9] == Cell::Text(self.ep_next@),
            self.cells()[10] == Cell::Text(self.ep_this@),
            self.cells()[11] == Cell::Int(self.event_points),
            self.cells()[12] == Cell::Text(self.first_name@),
            self.cells()[13] == Cell::Text(self.form@),
            self.cells()[14] == Cell::Int(self.id),
            self.cells()[15] == Cell::Bool(self.in_dreamteam),
            self.cells()[16] == Cell::Text(self.news@),
            self.cells()[17] == opt_text_cell(self.news_added),
            self.cells()[18] == Cell::Int(self.now_cost),
            self.cells()[19] == Cell::Text(self.photo@),
            self.cells()[20] == Cell::Text(self.points_per_game@),
            self.cells()[21] == Cell::Text(self.second_name@),
            self.cells()[22] == Cell::Text(self.selected_by_percent@),
            self.cells()[23] == Cell::Bool(self.special),
            self.cells()[24] == opt_text_cell(self.squad_number),
            self.cells()[25] == Cell::Text(self.status@),
            self.cells()[26] == Cell::Int(self.team),
            self.cells()[27] == Cell::Int(self.team_code),
            self.cells()[28] == Cell::Int(self.total_points),
            self.cells()[29] == Cell::Int(self.transfers_in),
            self.cells()[30] == Cell::Int(self.transfers_in_event),
            self.cells()[31] == Cell::Int(self.transfers_out),
            self.cells()[32] == Cell::Int(self.transfers_out_event),
            self.cells()[33] == Cell::Text(self.value_form@),
            self.cells()[34] == Cell::Text(self.value_season@),
            self.cells()[35] == Cell::Text(self.web_name@),
            self.cells()[36] == Cell::Int(self.minutes),
            self.cells()[37] == Cell::Int(self.goals_scored),
            self.cells()[38] == Cell::Int(self.assists),
            self.cells()[39] == Cell::Int(self.clean_sheets),
            self.cells()[40] == Cell::Int(self.goals_conceded),
            self.cells()[41] == Cell::Int(self.own_goals),
            self.cells()[42] == Cell::Int(self.penalties_saved),
            self.cells()[43] == Cell::Int(self.penalties_missed),
            self.cells()[44] == Cell::Int(self.yellow_cards),
            self.cells()[45] == Cell::Int(self.red_cards),
            self.cells()[46] == Cell::Int(self.saves),
            self.cells()[47] == Cell::Int(self.bonus),
            self.cells()[48] == Cell::Int(self.bps),
            self.cells()[49] == Cell::Text(self.influence@),
            self.cells()[50] == Cell::Text(self.creativity@),
            self.cells()[51] == Cell::Text(self.threat@),
            self.cells()[52] == Cell::Text(self.ict_index@),
            self.cells()[53] == Cell::Int(self.influence_rank),
            self.cells()[54] == Cell::Int(self.influence_rank_type),
            self.cells()[55] == Cell::Int(self.creativity_rank),
            self.cells()[56] == Cell::Int(self.creativity_rank_type),
            self.cells()[57] == Cell::Int(self.threat_rank),
            self.cells()[58] == Cell::Int(self.threat_rank_type),
            self.cells()[59] == Cell::Int(self.ict_index_rank),
            self.cells()[60] == Cell::Int(self.ict_index_rank_type),
            self.cells()[61] == opt_int_cell(self.corners_and_indirect_freekicks_order),
            self.cells()[62] == Cell::Text(self.corners_and_indirect_freekicks_text@),
            self.cells()[63] == opt_int_cell(self.direct_freekicks_order),
            self.cells()[64] == Cell::Text(self.direct_freekicks_text@),
            self.cells()[65] == opt_int_cell(self.penalties_order),
            self.cells()[66] == Cell::Text(self.penalties_text@),
    {
        reveal(Element::cells);
    }
}

/// The label and the name of one statistic.
#[derive(Default, Debug, Clone, PartialEq)]
pub struct ElementStat {
    pub label: String,
    pub name: String,
}

impl ElementStat {
    /// The columns of this record, in the order of its fields.
    #[verifier::opaque]
    pub open spec fn columns() -> Seq<Column> {
        seq![
            col("label", Kind::Text),
            col("name", Kind::Text),
        ]
    }

    /// What this record holds under each of its columns.
    #[verifier::opaque]
    pub open spec fn cells(self) -> Seq<Cell> {
        seq![
            Cell::Text(self.label@),
            Cell::Text(self.name@),
        ]
    }

    /// The columns, one by one.
    pub proof fn lemma_columns()
        ensures
            ElementStat::columns().len() == 2,
            ElementStat::columns()[0] == col("label", Kind::Text),
            ElementStat::columns()[1] == col("name", Kind::Text),
    {
        reveal(ElementStat::columns);
    }

    /// The cells, one by one.
    pub proof fn lemma_cells(self)
        ensures
            self.cells().len() == 2,
            self.cells()[0] == Cell::Text(self.label@),
            self.cells()[1] == Cell::Text(self.name@),
    {
        reveal(ElementStat::cells);
    }
}

/// A playing position and the squad limits that hold for it.
#[derive(Default, Debug, Clone, PartialEq)]
pub struct ElementType {
    pub id: i64,
    pub plural_name: String,
    pub plural_name_short: String,
    pub singular_name: String,
    pub singular_name_short: String,
    pub squad_select: i64,
    pub squad_min_play: i64,
    pub squad_max_play: i64,
    pub ui_shirt_specific: bool,
    pub sub_positions_locked: Vec<i64>,
    pub element_count: i64,
}

impl ElementType {
    /// The columns of the scalar fields of this record, in the order of its
    /// fields.
    #[verifier::opaque]
    pub open spec fn columns() -> Seq<Column> {
        seq![
            col("id", Kind::Integer),
            col("plural_name", Kind::Text),
            col("plural_name_short", Kind::Text),
            col("singular_name", Kind::Text),
            col("singular_name_short", Kind::Text),
            col("squad_select", Kind::Integer),
            col("squad_min_play", Kind::Integer),
            col("squad_max_play", Kind::Integer),
            col("ui_shirt_specific", Kind::Boolean),
            col("element_count", Kind::Integer),
        ]
    }

    /// What this record holds under each of its columns.
    #[verifier::opaque]
    pub open spec fn cells(self) -> Seq<Cell> {
        seq![
            Cell::Int(self.id),
            Cell::Text(self.plural_name@),
            Cell::Text(self.plural_name_short@),
            Cell::Text(self.singular_name@),
            Cell::Text(self.singular_name_short@),
            Cell::Int(self.squad_select),
            Cell::Int(self.squad_min_play),
            Cell::Int(self.squad_max_play),
            Cell::Bool(self.ui_shirt_specific),
            Cell::Int(self.element_count),
        ]
    }

    /// The columns, one by one.
    pub proof fn lemma_columns()
        ensures
            ElementType::columns().len() == 10,
            ElementType::columns()[0] == col("id", Kind::Integer),
            ElementType::columns()[1] == col("plural_name", Kind::Text),
            ElementType::columns()[2] == col("plural_name_short", Kind::Text),
            ElementType::columns()[3] == col("singular_name", Kind::Text),
            ElementType::columns()[4] == col("singular_name_short", Kind::Text),
            ElementType::columns()[5] == col("squad_select", Kind::Integer),
            ElementType::columns()[6] == col("squad_min_play", Kind::Integer),
            ElementType::columns()[7] == col("squad_max_play", Kind::Integer),
            ElementType::columns()[8] == col("ui_shirt_specific", Kind::Boolean),
            ElementType::columns()[9] == col("element_count", Kind::Integer),
    {
        reveal(ElementType::columns);
    }

    /// The cells, one by one.
    pub proof fn lemma_cells(self)
        ensures
            self.cells().len() == 10,
            self.cells()[0] == Cell::Int(self.id),
            self.cells()[1] == Cell::Text(self.plural_name@),
            self.cells()[2] == Cell::Text(self.plural_name_short@),
            self.cells()[3] == Cell::Text(self.singular_name@),
            self.cells()[4] == Cell::Text(self.singular_name_short@),
            self.cells()[5] == Cell::Int(self.squad_select),
            self.cells()[6] == Cell::Int(self.squad_min_play),
            self.cells()[7] == Cell::Int(self.squad_max_play),
            self.cells()[8] == Cell::Bool(self.ui_shirt_specific),
            self.cells()[9] == Cell::Int(self.element_count),
    {
        reveal(ElementType::cells);
    }
}

} // verus!
