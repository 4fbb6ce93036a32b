//! The records of a dataset as rows and as documents: for each record its
//! columns as the program holds them, the way from a row of cells to the
//! record and back, and its decoding.

use crate::decode::{held, holds, may_be_held, may_hold, optional, required, Decode};
use crate::error::DecodeError;
use crate::json::{Doc, Json};
use crate::models::general::{
    Amount, ChipPlay, Element, ElementStat, ElementType, Event, GameSettings, General, Phase,
    Team, TopElementInfo,
};
use crate::schema::{
    cell_fits, cells_of, columns_of, conforms, fits, lemma_row_conforms, read_row, row_of, Field,
    Heading, Kind,
};
use vstd::prelude::*;

verus! {

impl Event {
    /// The columns of this record as the program holds them.
    pub fn schema() -> (headings: Vec<Heading>)
        ensures
            columns_of(headings@) == Event::columns(),
    {
        let mut headings: Vec<Heading> = Vec::new();
        headings.push(Heading { name: "id", kind: Kind::Integer });
        headings.push(Heading { name: "name", kind: Kind::Text });
        headings.push(Heading { name: "deadline_time", kind: Kind::Text });
        headings.push(Heading { name: "average_entry_score", kind: Kind::Integer });
        headings.push(Heading { name: "finished", kind: Kind::Boolean });
        headings.push(Heading { name: "data_checked", kind: Kind::Boolean });
        headings.push(Heading { name: "highest_scoring_entry", kind: Kind::OptionalInteger });
        headings.push(Heading { name: "deadline_time_epoch", kind: Kind::Integer });
        headings.push(Heading { name: "deadline_time_game_offset", kind: Kind::Integer });
        headings.push(Heading { name: "highest_score", kind: Kind::OptionalInteger });
        headings.push(Heading { name: "is_previous", kind: Kind::Boolean });
        headings.push(Heading { name: "is_current", kind: Kind::Boolean });
        headings.push(Heading { name: "is_next", kind: Kind::Boolean });
        headings.push(Heading { name: "most_selected", kind: Kind::OptionalInteger });
        headings.push(Heading { name: "most_transferred_in", kind: Kind::OptionalInteger });
        headings.push(Heading { name: "top_element", kind: Kind::OptionalInteger });
        headings.push(Heading { name: "transfers_made", kind: Kind::Integer });
        headings.push(Heading { name: "most_captained", kind: Kind::OptionalInteger });
        headings.push(Heading { name: "most_vice_captained", kind: Kind::OptionalInteger });
        proof {
            Event::lemma_columns();
            assert(columns_of(headings@) =~= Event::columns());
        }
        headings
    }

    /// The record that holds `fields` under its columns and, beside them,
    /// the given parts.
    pub fn from_parts(
        fields: &Vec<Field>,
        chip_plays: Vec<ChipPlay>,
        top_element_info: Option<TopElementInfo>,
    ) -> (x: Event)
        requires
            conforms(cells_of(fields@), Event::columns()),
        ensures
            x.cells() == cells_of(fields@),
            x.chip_plays == chip_plays,
            x.top_element_info == top_element_info,
    {
        proof {
            Event::lemma_columns();
            assert forall|i: int| 0 <= i < fields@.len() implies cell_fits(
                (#[trigger] fields@[i])@,
                Event::columns()[i].kind,
            ) by {
                assert(cells_of(fields@)[i] == fields@[i]@);
            }
        }
        let x = Event {
            id: fields[0].integer(),
            name: fields[1].text(),
            deadline_time: fields[2].text(),
            average_entry_score: fields[3].integer(),
            finished: fields[4].boolean(),
            data_checked: fields[5].boolean(),
            highest_scoring_entry: fields[6].optional_integer(),
            deadline_time_epoch: fields[7].integer(),
            deadline_time_game_offset: fields[8].integer(),
            highest_score: fields[9].optional_integer(),
            is_previous: fields[10].boolean(),
            is_current: fields[11].boolean(),
            is_next: fields[12].boolean(),
            chip_plays,
            most_selected: fields[13].optional_integer(),
            most_transferred_in: fields[14].optional_integer(),
            top_element: fields[15].optional_integer(),
            top_element_info,
            transfers_made: fields[16].integer(),
            most_captained: fields[17].optional_integer(),
            most_vice_captained: fields[18].optional_integer(),
        };
        proof {
            x.lemma_cells();
            assert(x.cells() =~= cells_of(fields@));
        }
        x
    }

    /// The cells of this record as the program holds them.
    pub fn fields(&self) -> (fields: Vec<Field>)
        ensures
            cells_of(fields@) == self.cells(),
    {
        let mut fields: Vec<Field> = Vec::new();
        fields.push(Field::Int(self.id));
        fields.push(Field::Text(self.name.clone()));
        fields.push(Field::Text(self.deadline_time.clone()));
        fields.push(Field::Int(self.average_entry_score));
        fields.push(Field::Bool(self.finished));
        fields.push(Field::Bool(self.data_checked));
        fields.push(Field::from_optional_integer(self.highest_scoring_entry));
        fields.push(Field::Int(self.deadline_time_epoch));
        fields.push(Field::Int(self.deadline_time_game_offset));
        fields.push(Field::from_optional_integer(self.highest_score));
        fields.push(Field::Bool(self.is_previous));
        fields.push(Field::Bool(self.is_current));
        fields.push(Field::Bool(self.is_next));
        fields.push(Field::from_optional_integer(self.most_selected));
        fields.push(Field::from_optional_integer(self.most_transferred_in));
        fields.push(Field::from_optional_integer(self.top_element));
        fields.push(Field::Int(self.transfers_made));
        fields.push(Field::from_optional_integer(self.most_captained));
        fields.push(Field::from_optional_integer(self.most_vice_captained));
        proof {
            self.lemma_cells();
            assert(cells_of(fields@) =~= self.cells());
        }
        fields
    }
}

impl Decode for Event {
    open spec fn accepts(d: Doc) -> bool {
        &&& fits(d, Event::columns())
        &&& holds::<Vec<ChipPlay>>(d, "chip_plays"@)
        &&& may_hold::<TopElementInfo>(d, "top_element_info"@)
    }

    open spec fn agrees(&self, d: Doc) -> bool {
        &&& self.cells() == row_of(d, Event::columns())
        &&& held(d, "chip_plays"@, self.chip_plays)
        &&& may_be_held(d, "top_element_info"@, self.top_element_info)
    }

    fn decode(j: &Json) -> (r: Result<Event, DecodeError>) {
        let fields = read_row(j, &Event::schema())?;
        let chip_plays = required::<Vec<ChipPlay>>(j, "chip_plays")?;
        let top_element_info = optional::<TopElementInfo>(j, "top_element_info")?;
        proof {
            lemma_row_conforms(j@, Event::columns());
        }
        Ok(Event::from_parts(&fields, chip_plays, top_element_info))
    }
}

impl ChipPlay {
    /// The columns of this record as the program holds them.
    pub fn schema() -> (headings: Vec<Heading>)
        ensures
            columns_of(headings@) == ChipPlay::columns(),
    {
        let mut headings: Vec<Heading> = Vec::new();
        headings.push(Heading { name: "chip_name", kind: Kind::Text });
        headings.push(Heading { name: "num_played", kind: Kind::Integer });
        proof {
            ChipPlay::lemma_columns();
            assert(columns_of(headings@) =~= ChipPlay::columns());
        }
        headings
    }

    /// The record that holds `fields` under its columns.
    pub fn from_fields(fields: &Vec<Field>) -> (x: ChipPlay)
        requires
            conforms(cells_of(fields@), ChipPlay::columns()),
        ensures
            x.cells() == cells_of(fields@),
    {
        proof {
            ChipPlay::lemma_columns();
            assert forall|i: int| 0 <= i < fields@.len() implies cell_fits(
                (#[trigger] fields@[i])@,
                ChipPlay::columns()[i].kind,
            ) by {
                assert(cells_of(fields@)[i] == fields@[i]@);
            }
        }
        let x = ChipPlay {
            chip_name: fields[0].text(),
            num_played: fields[1].integer(),
        };
        proof {
            x.lemma_cells();
            assert(x.cells() =~= cells_of(fields@));
        }
        x
    }

    /// The cells of this record as the program holds them.
    pub fn fields(&self) -> (fields: Vec<Field>)
        ensures
            cells_of(fields@) == self.cells(),
    {
        let mut fields: Vec<Field> = Vec::new();
        fields.push(Field::Text(self.chip_name.clone()));
        fields.push(Field::Int(self.num_played));
        proof {
            self.lemma_cells();
            assert(cells_of(fields@) =~= self.cells());
        }
        fields
    }
}

impl Decode for ChipPlay {
    open spec fn accepts(d: Doc) -> bool {
        fits(d, ChipPlay::columns())
    }

    open spec fn agrees(&self, d: Doc) -> bool {
        self.cells() == row_of(d, ChipPlay::columns())
    }

    fn decode(j: &Json) -> (r: Result<ChipPlay, DecodeError>) {
        let fields = read_row(j, &ChipPlay::schema())?;
        proof {
            lemma_row_conforms(j@, ChipPlay::columns());
        }
        Ok(ChipPlay::from_fields(&fields))
    }
}

impl TopElementInfo {
    /// The columns of this record as the program holds them.
    pub fn schema() -> (headings: Vec<Heading>)
        ensures
            columns_of(headings@) == TopElementInfo::columns(),
    {
        let mut headings: Vec<Heading> = Vec::new();
        headings.push(Heading { name: "id", kind: Kind::Integer });
        headings.push(Heading { name: "points", kind: Kind::Integer });
        proof {
            TopElementInfo::lemma_columns();
            assert(columns_of(headings@) =~= TopElementInfo::columns());
        }
        headings
    }

    /// The record that holds `fields` under its columns.
    pub fn from_fields(fields: &Vec<Field>) -> (x: TopElementInfo)
        requires
            conforms(cells_of(fields@), TopElementInfo::columns()),
        ensures
            x.cells() == cells_of(fields@),
    {
        proof {
            TopElementInfo::lemma_columns();
            assert forall|i: int| 0 <= i < fields@.len() implies cell_fits(
                (#[trigger] fields@[i])@,
                TopElementInfo::columns()[i].kind,
            ) by {
                assert(cells_of(fields@)[i] == fields@[i]@);
            }
        }
        let x = TopElementInfo {
            id: fields[0].integer(),
            points: fields[1].integer(),
        };
        proof {
            x.lemma_cells();
            assert(x.cells() =~= cells_of(fields@));
        }
        x
    }

    /// The cells of this record as the program holds them.
    pub fn fields(&self) -> (fields: Vec<Field>)
        ensures
            cells_of(fields@) == self.cells(),
    {
        let mut fields: Vec<Field> = Vec::new();
        fields.push(Field::Int(self.id));
        fields.push(Field::Int(self.points));
        proof {
            self.lemma_cells();
            assert(cells_of(fields@) =~= self.cells());
        }
        fields
    }
}

impl Decode for TopElementInfo {
    open spec fn accepts(d: Doc) -> bool {
        fits(d, TopElementInfo::columns())
    }

    open spec fn agrees(&self, d: Doc) -> bool {
        self.cells() == row_of(d, TopElementInfo::columns())
    }

    fn decode(j: &Json) -> (r: Result<TopElementInfo, DecodeError>) {
        let fields = read_row(j, &TopElementInfo::schema())?;
        proof {
            lemma_row_conforms(j@, TopElementInfo::columns());
        }
        Ok(TopElementInfo::from_fields(&fields))
    }
}

impl GameSettings {
    /// The columns of this record as the program holds them.
    pub fn schema() -> (headings: Vec<Heading>)
        ensures
            columns_of(headings@) == GameSettings::columns(),
    {
        let mut headings: Vec<Heading> = Vec::new();
        headings.push(Heading { name: "league_join_private_max", kind: Kind::Integer });
        headings.push(Heading { name: "league_join_public_max", kind: Kind::Integer });
        headings.push(Heading { name: "league_max_size_public_classic", kind: Kind::Integer });
        headings.push(Heading { name: "league_max_size_public_h2h", kind: Kind::Integer });
        headings.push(Heading { name: "league_max_size_private_h2h", kind: Kind::Integer });
        headings.push(Heading { name: "league_max_ko_rounds_private_h2h", kind: Kind::Integer });
        headings.push(Heading { name: "league_prefix_public", kind: Kind::Text });
        headings.push(Heading { name: "league_points_h2h_win", kind: Kind::Integer });
        headings.push(Heading { name: "league_points_h2h_lose", kind: Kind::Integer });
        headings.push(Heading { name: "league_points_h2h_draw", kind: Kind::Integer });
        headings.push(Heading { name: "league_ko_first_instead_of_random", kind: Kind::Boolean });
        headings.push(Heading { name: "cup_start_event_id", kind: Kind::Integer });
        headings.push(Heading { name: "cup_stop_event_id", kind: Kind::Integer });
        headings.push(Heading { name: "cup_qualifying_method", kind: Kind::Text });
        headings.push(Heading { name: "cup_type", kind: Kind::Text });
        headings.push(Heading { name: "squad_squadplay", kind: Kind::Integer });
        headings.push(Heading { name: "squad_squadsize", kind: Kind::Integer });
        headings.push(Heading { name: "squad_team_limit", kind: Kind::Integer });
        headings.push(Heading { name: "squad_total_spend", kind: Kind::Integer });
        headings.push(Heading { name: "ui_currency_multiplier", kind: Kind::Integer });
        headings.push(Heading { name: "ui_use_special_shirts", kind: Kind::Boolean });
        headings.push(Heading { name: "stats_form_days", kind: Kind::Integer });
        headings.push(Heading { name: "sys_vice_captain_enabled", kind: Kind::Boolean });
        headings.push(Heading { name: "transfers_cap", kind: Kind::Integer });
        headings.push(Heading { name: "timezone", kind: Kind::Text });
        proof {
            GameSettings::lemma_columns();
            assert(columns_of(headings@) =~= GameSettings::columns());
        }
        headings
    }

    /// The record that holds `fields` under its columns and, beside them,
    /// the given parts.
    pub fn from_parts(
        fields: &Vec<Field>,
        ui_special_shirt_exclusions: Vec<Option<String>>,
        transfers_sell_on_fee: Amount,
        league_h2_h_tiebreak_stats: Vec<String>,
    ) -> (x: GameSettings)
        requires
            conforms(cells_of(fields@), GameSettings::columns()),
        ensures
            x.cells() == cells_of(fields@),
            x.ui_special_shirt_exclusions == ui_special_shirt_exclusions,
            x.transfers_sell_on_fee == transfers_sell_on_fee,
            x.league_h2_h_tiebreak_stats == league_h2_h_tiebreak_stats,
    {
        proof {
            GameSettings::lemma_columns();
            assert forall|i: int| 0 <= i < fields@.len() implies cell_fits(
                (#[trigger] fields@[i])@,
                GameSettings::columns()[i].kind,
            ) by {
                assert(cells_of(fields@)[i] == fields@[i]@);
            }
        }
        let x = GameSettings {
            league_join_private_max: fields[0].integer(),
            league_join_public_max: fields[1].integer(),
            league_max_size_public_classic: fields[2].integer(),
            league_max_size_public_h2_h: fields[3].integer(),
            league_max_size_private_h2_h: fields[4].integer(),
            league_max_ko_rounds_private_h2_h: fields[5].integer(),
            league_prefix_public: fields[6].text(),
            league_points_h2_h_win: fields[7].integer(),
            league_points_h2_h_lose: fields[8].integer(),
            league_points_h2_h_draw: fields[9].integer(),
            league_ko_first_instead_of_random: fields[10].boolean(),
            cup_start_event_id: fields[11].integer(),
            cup_stop_event_id: fields[12].integer(),
            cup_qualifying_method: fields[13].text(),
            cup_type: fields[14].text(),
            squad_squadplay: fields[15].integer(),
            squad_squadsize: fields[16].integer(),
            squad_team_limit: fields[17].integer(),
            squad_total_spend: fields[18].integer(),
            ui_currency_multiplier: fields[19].integer(),
            ui_use_special_shirts: fields[20].boolean(),
            ui_special_shirt_exclusions,
            stats_form_days: fields[21].integer(),
            sys_vice_captain_enabled: fields[22].boolean(),
            transfers_cap: fields[23].integer(),
            transfers_sell_on_fee,
            league_h2_h_tiebreak_stats,
            timezone: fields[24].text(),
        };
        proof {
            x.lemma_cells();
            assert(x.cells() =~= cells_of(fields@));
        }
        x
    }

    /// The cells of this record as the program holds them.
    pub fn fields(&self) -> (fields: Vec<Field>)
        ensures
            cells_of(fields@) == self.cells(),
    {
        let mut fields: Vec<Field> = Vec::new();
        fields.push(Field::Int(self.league_join_private_max));
        fields.push(Field::Int(self.league_join_public_max));
        fields.push(Field::Int(self.league_max_size_public_classic));
        fields.push(Field::Int(self.league_max_size_public_h2_h));
        fields.push(Field::Int(self.league_max_size_private_h2_h));
        fields.push(Field::Int(self.league_max_ko_rounds_private_h2_h));
        fields.push(Field::Text(self.league_prefix_public.clone()));
        fields.push(Field::Int(self.league_points_h2_h_win));
        fields.push(Field::Int(self.league_points_h2_h_lose));
        fields.push(Field::Int(self.league_points_h2_h_draw));
        fields.push(Field::Bool(self.league_ko_first_instead_of_random));
        fields.push(Field::Int(self.cup_start_event_id));
        fields.push(Field::Int(self.cup_stop_event_id));
        fields.push(Field::Text(self.cup_qualifying_method.clone()));
        fields.push(Field::Text(self.cup_type.clone()));
        fields.push(Field::Int(self.squad_squadplay));
        fields.push(Field::Int(self.squad_squadsize));
        fields.push(Field::Int(self.squad_team_limit));
        fields.push(Field::Int(self.squad_total_spend));
        fields.push(Field::Int(self.ui_currency_multiplier));
        fields.push(Field::Bool(self.ui_use_special_shirts));
        fields.push(Field::Int(self.stats_form_days));
        fields.push(Field::Bool(self.sys_vice_captain_enabled));
        fields.push(Field::Int(self.transfers_cap));
        fields.push(Field::Text(self.timezone.clone()));
        proof {
            self.lemma_cells();
            assert(cells_of(fields@) =~= self.cells());
        }
        fields
    }
}

impl Decode for GameSettings {
    open spec fn accepts(d: Doc) -> bool {
        &&& fits(d, GameSettings::columns())
        &&& holds::<Vec<Option<String>>>(d, "ui_special_shirt_exclusions"@)
        &&& holds::<Amount>(d, "transfers_sell_on_fee"@)
        &&& holds::<Vec<String>>(d, "league_h2h_tiebreak_stats"@)
    }

    open spec fn agrees(&self, d: Doc) -> bool {
        &&& self.cells() == row_of(d, GameSettings::columns())
        &&& held(d, "ui_special_shirt_exclusions"@, self.ui_special_shirt_exclusions)
        &&& held(d, "transfers_sell_on_fee"@, self.transfers_sell_on_fee)
        &&& held(d, "league_h2h_tiebreak_stats"@, self.league_h2_h_tiebreak_stats)
    }

    fn decode(j: &Json) -> (r: Result<GameSettings, DecodeError>) {
        let fields = read_row(j, &GameSettings::schema())?;
        let ui_special_shirt_exclusions = required::<Vec<Option<String>>>(j, "ui_special_shirt_exclusions")?;
        let transfers_sell_on_fee = required::<Amount>(j, "transfers_sell_on_fee")?;
        let league_h2_h_tiebreak_stats = required::<Vec<String>>(j, "league_h2h_tiebreak_stats")?;
        proof {
            lemma_row_conforms(j@, GameSettings::columns());
        }
        Ok(GameSettings::from_parts(&fields, ui_special_shirt_exclusions, transfers_sell_on_fee, league_h2_h_tiebreak_stats))
    }
}

impl Phase {
    /// The columns of this record as the program holds them.
    pub fn schema() -> (headings: Vec<Heading>)
        ensures
            columns_of(headings@) == Phase::columns(),
    {
        let mut headings: Vec<Heading> = Vec::new();
        headings.push(Heading { name: "id", kind: Kind::Integer });
        headings.push(Heading { name: "name", kind: Kind::Text });
        headings.push(Heading { name: "start_event", kind: Kind::Integer });
        headings.push(Heading { name: "stop_event", kind: Kind::Integer });
        proof {
            Phase::lemma_columns();
            assert(columns_of(headings@) =~= Phase::columns());
        }
        headings
    }

    /// The record that holds `fields` under its columns.
    pub fn from_fields(fields: &Vec<Field>) -> (x: Phase)
        requires
            conforms(cells_of(fields@), Phase::columns()),
        ensures
            x.cells() == cells_of(fields@),
    {
        proof {
            Phase::lemma_columns();
            assert forall|i: int| 0 <= i < fields@.len() implies cell_fits(
                (#[trigger] fields@[i])@,
                Phase::columns()[i].kind,
            ) by {
                assert(cells_of(fields@)[i] == fields@[i]@);
            }
        }
        let x = Phase {
            id: fields[0].integer(),
            name: fields[1].text(),
            start_event: fields[2].integer(),
            stop_event: fields[3].integer(),
        };
        proof {
            x.lemma_cells();
            assert(x.cells() =~= cells_of(fields@));
        }
        x
    }

    /// The cells of this record as the program holds them.
    pub fn fields(&self) -> (fields: Vec<Field>)
        ensures
            cells_of(fields@) == self.cells(),
    {
        let mut fields: Vec<Field> = Vec::new();
        fields.push(Field::Int(self.id));
        fields.push(Field::Text(self.name.clone()));
        fields.push(Field::Int(self.start_event));
        fields.push(Field::Int(self.stop_event));
        proof {
            self.lemma_cells();
            assert(cells_of(fields@) =~= self.cells());
        }
        fields
    }
}

impl Decode for Phase {
    open spec fn accepts(d: Doc) -> bool {
        fits(d, Phase::columns())
    }

    open spec fn agrees(&self, d: Doc) -> bool {
        self.cells() == row_of(d, Phase::columns())
    }

    fn decode(j: &Json) -> (r: Result<Phase, DecodeError>) {
        let fields = read_row(j, &Phase::schema())?;
        proof {
            lemma_row_conforms(j@, Phase::columns());
        }
        Ok(Phase::from_fields(&fields))
    }
}

impl Team {
    /// The columns of this record as the program holds them.
    pub fn schema() -> (headings: Vec<Heading>)
        ensures
            columns_of(headings@) == Team::columns(),
    {
        let mut headings: Vec<Heading> = Vec::new();
        headings.push(Heading { name: "code", kind: Kind::Integer });
        headings.push(Heading { name: "draw", kind: Kind::Integer });
        headings.push(Heading { name: "form", kind: Kind::OptionalText });
        headings.push(Heading { name: "id", kind: Kind::Integer });
        headings.push(Heading { name: "loss", kind: Kind::Integer });
        headings.push(Heading { name: "name", kind: Kind::Text });
        headings.push(Heading { name: "played", kind: Kind::Integer });
        headings.push(Heading { name: "points", kind: Kind::Integer });
        headings.push(Heading { name: "position", kind: Kind::Integer });
        headings.push(Heading { name: "short_name", kind: Kind::Text });
        headings.push(Heading { name: "strength", kind: Kind::Integer });
        headings.push(Heading { name: "team_division", kind: Kind::OptionalText });
        headings.push(Heading { name: "unavailable", kind: Kind::Boolean });
        headings.push(Heading { name: "win", kind: Kind::Integer });
        headings.push(Heading { name: "strength_overall_home", kind: Kind::Integer });
        headings.push(Heading { name: "strength_overall_away", kind: Kind::Integer });
        headings.push(Heading { name: "strength_attack_home", kind: Kind::Integer });
        headings.push(Heading { name: "strength_attack_away", kind: Kind::Integer });
        headings.push(Heading { name: "strength_defence_home", kind: Kind::Integer });
        headings.push(Heading { name: "strength_defence_away", kind: Kind::Integer });
        headings.push(Heading { name: "pulse_id", kind: Kind::Integer });
        proof {
            Team::lemma_columns();
            assert(columns_of(headings@) =~= Team::columns());
        }
        headings
    }

    /// The record that holds `fields` under its columns.
    pub fn from_fields(fields: &Vec<Field>) -> (x: Team)
        requires
            conforms(cells_of(fields@), Team::columns()),
        ensures
            x.cells() == cells_of(fields@),
    {
        proof {
            Team::lemma_columns();
            assert forall|i: int| 0 <= i < fields@.len() implies cell_fits(
                (#[trigger] fields@[i])@,
                Team::columns()[i].kind,
            ) by {
                assert(cells_of(fields@)[i] == fields@[i]@);
            }
        }
        let x = Team {
            code: fields[0].integer(),
            draw: fields[1].integer(),
            form: fields[2].optional_text(),
            id: fields[3].integer(),
            loss: fields[4].integer(),
            name: fields[5].text(),
            played: fields[6].integer(),
            points: fields[7].integer(),
            position: fields[8].integer(),
            short_name: fields[9].text(),
            strength: fields[10].integer(),
            team_division: fields[11].optional_text(),
            unavailable: fields[12].boolean(),
            win: fields[13].integer(),
            strength_overall_home: fields[14].integer(),
            strength_overall_away: fields[15].integer(),
            strength_attack_home: fields[16].integer(),
            strength_attack_away: fields[17].integer(),
            strength_defence_home: fields[18].integer(),
            strength_defence_away: fields[19].integer(),
            pulse_id: fields[20].integer(),
        };
        proof {
            x.lemma_cells();
            assert(x.cells() =~= cells_of(fields@));
        }
        x
    }

    /// The cells of this record as the program holds them.
    pub fn fields(&self) -> (fields: Vec<Field>)
        ensures
            cells_of(fields@) == self.cells(),
    {
        let mut fields: Vec<Field> = Vec::new();
        fields.push(Field::Int(self.code));
        fields.push(Field::Int(self.draw));
        fields.push(Field::from_optional_text(&self.form));
        fields.push(Field::Int(self.id));
        fields.push(Field::Int(self.loss));
        fields.push(Field::Text(self.name.clone()));
        fields.push(Field::Int(self.played));
        fields.push(Field::Int(self.points));
        fields.push(Field::Int(self.position));
        fields.push(Field::Text(self.short_name.clone()));
        fields.push(Field::Int(self.strength));
        fields.push(Field::from_optional_text(&self.team_division));
        fields.push(Field::Bool(self.unavailable));
        fields.push(Field::Int(self.win));
        fields.push(Field::Int(self.strength_overall_home));
        fields.push(Field::Int(self.strength_overall_away));
        fields.push(Field::Int(self.strength_attack_home));
        fields.push(Field::Int(self.strength_attack_away));
        fields.push(Field::Int(self.strength_defence_home));
        fields.push(Field::Int(self.strength_defence_away));
        fields.push(Field::Int(self.pulse_id));
        proof {
            self.lemma_cells();
            assert(cells_of(fields@) =~= self.cells());
        }
        fields
    }
}

impl Decode for Team {
    open spec fn accepts(d: Doc) -> bool {
        fits(d, Team::columns())
    }

    open spec fn agrees(&self, d: Doc) -> bool {
        self.cells() == row_of(d, Team::columns())
    }

    fn decode(j: &Json) -> (r: Result<Team, DecodeError>) {
        let fields = read_row(j, &Team::schema())?;
        proof {
            lemma_row_conforms(j@, Team::columns());
        }
        Ok(Team::from_fields(&fields))
    }
}

impl Element {
    /// The columns of this record as the program holds them.
    pub fn schema() -> (headings: Vec<Heading>)
        ensures
            columns_of(headings@) == Element::columns(),
    {
        let mut headings: Vec<Heading> = Vec::new();
        headings.push(Heading { name: "chance_of_playing_next_round", kind: Kind::OptionalInteger });
        headings.push(Heading { name: "chance_of_playing_this_round", kind: Kind::OptionalInteger });
        headings.push(Heading { name: "code", kind: Kind::Integer });
        headings.push(Heading { name: "cost_change_event", kind: Kind::Integer });
        headings.push(Heading { name: "cost_change_event_fall", kind: Kind::Integer });
        headings.push(Heading { name: "cost_change_start", kind: Kind::Integer });
        headings.push(Heading { name: "cost_change_start_fall", kind: Kind::Integer });
        headings.push(Heading { name: "dreamteam_count", kind: Kind::Integer });
        headings.push(Heading { name: "element_type", kind: Kind::Integer });
        headings.push(Heading { name: "ep_next", kind: Kind::NumericText });
        headings.push(Heading { name: "ep_this", kind: Kind::NumericText });
        headings.push(Heading { name: "event_points", kind: Kind::Integer });
        headings.push(Heading { name: "first_name", kind: Kind::Text });
        headings.push(Heading { name: "form", kind: Kind::NumericText });
        headings.push(Heading { name: "id", kind: Kind::Integer });
        headings.push(Heading { name: "in_dreamteam", kind: Kind::Boolean });
        headings.push(Heading { name: "news", kind: Kind::Text });
        headings.push(Heading { name: "news_added", kind: Kind::OptionalText });
        headings.push(Heading { name: "now_cost", kind: Kind::Integer });
        headings.push(Heading { name: "photo", kind: Kind::Text });
        headings.push(Heading { name: "points_per_game", kind: Kind::NumericText });
        headings.push(Heading { name: "second_name", kind: Kind::Text });
        headings.push(Heading { name: "selected_by_percent", kind: Kind::NumericText });
        headings.push(Heading { name: "special", kind: Kind::Boolean });
        headings.push(Heading { name: "squad_number", kind: Kind::OptionalText });
        headings.push(Heading { name: "status", kind: Kind::Text });
        headings.push(Heading { name: "team", kind: Kind::Integer });
        headings.push(Heading { name: "team_code", kind: Kind::Integer });
        headings.push(Heading { name: "total_points", kind: Kind::Integer });
        headings.push(Heading { name: "transfers_in", kind: Kind::Integer });
        headings.push(Heading { name: "transfers_in_event", kind: Kind::Integer });
        headings.push(Heading { name: "transfers_out", kind: Kind::Integer });
        headings.push(Heading { name: "transfers_out_event", kind: Kind::Integer });
        headings.push(Heading { name: "value_form", kind: Kind::NumericText });
        headings.push(Heading { name: "value_season", kind: Kind::NumericText });
        headings.push(Heading { name: "web_name", kind: Kind::Text });
        headings.push(Heading { name: "minutes", kind: Kind::Integer });
        headings.push(Heading { name: "goals_scored", kind: Kind::Integer });
        headings.push(Heading { name: "assists", kind: Kind::Integer });
        headings.push(Heading { name: "clean_sheets", kind: Kind::Integer });
        headings.push(Heading { name: "goals_conceded", kind: Kind::Integer });
        headings.push(Heading { name: "own_goals", kind: Kind::Integer });
        headings.push(Heading { name: "penalties_saved", kind: Kind::Integer });
        headings.push(Heading { name: "penalties_missed", kind: Kind::Integer });
        headings.push(Heading { name: "yellow_cards", kind: Kind::Integer });
        headings.push(Heading { name: "red_cards", kind: Kind::Integer });
        headings.push(Heading { name: "saves", kind: Kind::Integer });
        headings.push(Heading { name: "bonus", kind: Kind::Integer });
        headings.push(Heading { name: "bps", kind: Kind::Integer });
        headings.push(Heading { name: "influence", kind: Kind::NumericText });
        headings.push(Heading { name: "creativity", kind: Kind::NumericText });
        headings.push(Heading { name: "threat", kind: Kind::NumericText });
        headings.push(Heading { name: "ict_index", kind: Kind::NumericText });
        headings.push(Heading { name: "influence_rank", kind: Kind::Integer });
        headings.push(Heading { name: "influence_rank_type", kind: Kind::Integer });
        headings.push(Heading { name: "creativity_rank", kind: Kind::Integer });
        headings.push(Heading { name: "creativity_rank_type", kind: Kind::Integer });
        headings.push(Heading { name: "threat_rank", kind: Kind::Integer });
        headings.push(Heading { name: "threat_rank_type", kind: Kind::Integer });
        headings.push(Heading { name: "ict_index_rank", kind: Kind::Integer });
        headings.push(Heading { name: "ict_index_rank_type", kind: Kind::Integer });
        headings.push(Heading { name: "corners_and_indirect_freekicks_order", kind: Kind::OptionalInteger });
        headings.push(Heading { name: "corners_and_indirect_freekicks_text", kind: Kind::Text });
        headings.push(Heading { name: "direct_freekicks_order", kind: Kind::OptionalInteger });
        headings.push(Heading { name: "direct_freekicks_text", kind: Kind::Text });
        headings.push(Heading { name: "penalties_order", kind: Kind::OptionalInteger });
        headings.push(Heading { name: "penalties_text", kind: Kind::Text });
        proof {
            Element::lemma_columns();
            assert(columns_of(headings@) =~= Element::columns());
        }
        headings
    }

    /// The record that holds `fields` under its columns.
    pub fn from_fields(fields: &Vec<Field>) -> (x: Element)
        requires
            conforms(cells_of(fields@), Element::columns()),
        ensures
            x.cells() == cells_of(fields@),
    {
        proof {
            Element::lemma_columns();
            assert forall|i: int| 0 <= i < fields@.len() implies cell_fits(
                (#[trigger] fields@[i])@,
                Element::columns()[i].kind,
            ) by {
                assert(cells_of(fields@)[i] == fields@[i]@);
            }
        }
        let x = Element {
            chance_of_playing_next_round: fields[0].optional_integer(),
            chance_of_playing_this_round: fields[1].optional_integer(),
            code: fields[2].integer(),
            cost_change_event: fields[3].integer(),
            cost_change_event_fall: fields[4].integer(),
            cost_change_start: fields[5].integer(),
            cost_change_start_fall: fields[6].integer(),
            dreamteam_count: fields[7].integer(),
            element_type: fields[8].integer(),
            ep_next: fields[9].text(),
            ep_this: fields[10].text(),
            event_points: fields[11].integer(),
            first_name: fields[12].text(),
            form: fields[13].text(),
            id: fields[14].integer(),
            in_dreamteam: fields[15].boolean(),
            news: fields[16].text(),
            news_added: fields[17].optional_text(),
            now_cost: fields[18].integer(),
            photo: fields[19].text(),
            points_per_game: fields[20].text(),
            second_name: fields[21].text(),
            selected_by_percent: fields[22].text(),
            special: fields[23].boolean(),
            squad_number: fields[24].optional_text(),
            status: fields[25].text(),
            team: fields[26].integer(),
            team_code: fields[27].integer(),
            total_points: fields[28].integer(),
            transfers_in: fields[29].integer(),
            transfers_in_event: fields[30].integer(),
            transfers_out: fields[31].integer(),
            transfers_out_event: fields[32].integer(),
            value_form: fields[33].text(),
            value_season: fields[34].text(),
            web_name: fields[35].text(),
            minutes: fields[36].integer(),
            goals_scored: fields[37].integer(),
            assists: fields[38].integer(),
            clean_sheets: fields[39].integer(),
            goals_conceded: fields[40].integer(),
            own_goals: fields[41].integer(),
            penalties_saved: fields[42].integer(),
            penalties_missed: fields[43].integer(),
            yellow_cards: fields[44].integer(),
            red_cards: fields[45].integer(),
            saves: fields[46].integer(),
            bonus: fields[47].integer(),
            bps: fields[48].integer(),
            influence: fields[49].text(),
            creativity: fields[50].text(),
            threat: fields[51].text(),
            ict_index: fields[52].text(),
            influence_rank: fields[53].integer(),
            influence_rank_type: fields[54].integer(),
            creativity_rank: fields[55].integer(),
            creativity_rank_type: fields[56].integer(),
            threat_rank: fields[57].integer(),
            threat_rank_type: fields[58].integer(),
            ict_index_rank: fields[59].integer(),
            ict_index_rank_type: fields[60].integer(),
            corners_and_indirect_freekicks_order: fields[61].optional_integer(),
            corners_and_indirect_freekicks_text: fields[62].text(),
            direct_freekicks_order: fields[63].optional_integer(),
            direct_freekicks_text: fields[64].text(),
            penalties_order: fields[65].optional_integer(),
            penalties_text: fields[66].text(),
        };
        proof {
            x.lemma_cells();
            assert(x.cells() =~= cells_of(fields@));
        }
        x
    }

    /// The cells of this record as the program holds them.
    pub fn fields(&self) -> (fields: Vec<Field>)
        ensures
            cells_of(fields@) == self.cells(),
    {
        let mut fields: Vec<Field> = Vec::new();
        fields.push(Field::from_optional_integer(self.chance_of_playing_next_round));
        fields.push(Field::from_optional_integer(self.chance_of_playing_this_round));
        fields.push(Field::Int(self.code));
        fields.push(Field::Int(self.cost_change_event));
        fields.push(Field::Int(self.cost_change_event_fall));
        fields.push(Field::Int(self.cost_change_start));
        fields.push(Field::Int(self.cost_change_start_fall));
        fields.push(Field::Int(self.dreamteam_count));
        fields.push(Field::Int(self.element_type));
        fields.push(Field::Text(self.ep_next.clone()));
        fields.push(Field::Text(self.ep_this.clone()));
        fields.push(Field::Int(self.event_points));
        fields.push(Field::Text(self.first_name.clone()));
        fields.push(Field::Text(self.form.clone()));
        fields.push(Field::Int(self.id));
        fields.push(Field::Bool(self.in_dreamteam));
        fields.push(Field::Text(self.news.clone()));
        fields.push(Field::from_optional_text(&self.news_added));
        fields.push(Field::Int(self.now_cost));
        fields.push(Field::Text(self.photo.clone()));
        fields.push(Field::Text(self.points_per_game.clone()));
        fields.push(Field::Text(self.second_name.clone()));
        fields.push(Field::Text(self.selected_by_percent.clone()));
        fields.push(Field::Bool(self.special));
        fields.push(Field::from_optional_text(&self.squad_number));
        fields.push(Field::Text(self.status.clone()));
        fields.push(Field::Int(self.team));
        fields.push(Field::Int(self.team_code));
        fields.push(Field::Int(self.total_points));
        fields.push(Field::Int(self.transfers_in));
        fields.push(Field::Int(self.transfers_in_event));
        fields.push(Field::Int(self.transfers_out));
        fields.push(Field::Int(self.transfers_out_event));
        fields.push(Field::Text(self.value_form.clone()));
        fields.push(Field::Text(self.value_season.clone()));
        fields.push(Field::Text(self.web_name.clone()));
        fields.push(Field::Int(self.minutes));
        fields.push(Field::Int(self.goals_scored));
        fields.push(Field::Int(self.assists));
        fields.push(Field::Int(self.clean_sheets));
        fields.push(Field::Int(self.goals_conceded));
        fields.push(Field::Int(self.own_goals));
        fields.push(Field::Int(self.penalties_saved));
        fields.push(Field::Int(self.penalties_missed));
        fields.push(Field::Int(self.yellow_cards));
        fields.push(Field::Int(self.red_cards));
        fields.push(Field::Int(self.saves));
        fields.push(Field::Int(self.bonus));
        fields.push(Field::Int(self.bps));
        fields.push(Field::Text(self.influence.clone()));
        fields.push(Field::Text(self.creativity.clone()));
        fields.push(Field::Text(self.threat.clone()));
        fields.push(Field::Text(self.ict_index.clone()));
        fields.push(Field::Int(self.influence_rank));
        fields.push(Field::Int(self.influence_rank_type));
        fields.push(Field::Int(self.creativity_rank));
        fields.push(Field::Int(self.creativity_rank_type));
        fields.push(Field::Int(self.threat_rank));
        fields.push(Field::Int(self.threat_rank_type));
        fields.push(Field::Int(self.ict_index_rank));
        fields.push(Field::Int(self.ict_index_rank_type));
        fields.push(Field::from_optional_integer(self.corners_and_indirect_freekicks_order));
        fields.push(Field::Text(self.corners_and_indirect_freekicks_text.clone()));
        fields.push(Field::from_optional_integer(self.direct_freekicks_order));
        fields.push(Field::Text(self.direct_freekicks_text.clone()));
        fields.push(Field::from_optional_integer(self.penalties_order));
        fields.push(Field::Text(self.penalties_text.clone()));
        proof {
            self.lemma_cells();
            assert(cells_of(fields@) =~= self.cells());
        }
        fields
    }
}

impl Decode for Element {
    open spec fn accepts(d: Doc) -> bool {
        fits(d, Element::columns())
    }

    open spec fn agrees(&self, d: Doc) -> bool {
        self.cells() == row_of(d, Element::columns())
    }

    fn decode(j: &Json) -> (r: Result<Element, DecodeError>) {
        let fields = read_row(j, &Element::schema())?;
        proof {
            lemma_row_conforms(j@, Element::columns());
        }
        Ok(Element::from_fields(&fields))
    }
}

impl ElementStat {
    /// The columns of this record as the program holds them.
    pub fn schema() -> (headings: Vec<Heading>)
        ensures
            columns_of(headings@) == ElementStat::columns(),
    {
        let mut headings: Vec<Heading> = Vec::new();
        headings.push(Heading { name: "label", kind: Kind::Text });
        headings.push(Heading { name: "name", kind: Kind::Text });
        proof {
            ElementStat::lemma_columns();
            assert(columns_of(headings@) =~= ElementStat::columns());
        }
        headings
    }

    /// The record that holds `fields` under its columns.
    pub fn from_fields(fields: &Vec<Field>) -> (x: ElementStat)
        requires
            conforms(cells_of(fields@), ElementStat::columns()),
        ensures
            x.cells() == cells_of(fields@),
    {
        proof {
            ElementStat::lemma_columns();
            assert forall|i: int| 0 <= i < fields@.len() implies cell_fits(
                (#[trigger] fields@[i])@,
                ElementStat::columns()[i].kind,
            ) by {
                assert(cells_of(fields@)[i] == fields@[i]@);
            }
        }
        let x = ElementStat {
            label: fields[0].text(),
            name: fields[1].text(),
        };
        proof {
            x.lemma_cells();
            assert(x.cells() =~= cells_of(fields@));
        }
        x
    }

    /// The cells of this record as the program holds them.
    pub fn fields(&self) -> (fields: Vec<Field>)
        ensures
            cells_of(fields@) == self.cells(),
    {
        let mut fields: Vec<Field> = Vec::new();
        fields.push(Field::Text(self.label.clone()));
        fields.push(Field::Text(self.name.clone()));
        proof {
            self.lemma_cells();
            assert(cells_of(fields@) =~= self.cells());
        }
        fields
    }
}

impl Decode for ElementStat {
    open spec fn accepts(d: Doc) -> bool {
        fits(d, ElementStat::columns())
    }

    open spec fn agrees(&self, d: Doc) -> bool {
        self.cells() == row_of(d, ElementStat::columns())
    }

    fn decode(j: &Json) -> (r: Result<ElementStat, DecodeError>) {
        let fields = read_row(j, &ElementStat::schema())?;
        proof {
            lemma_row_conforms(j@, ElementStat::columns());
        }
        Ok(ElementStat::from_fields(&fields))
    }
}

impl ElementType {
    /// The columns of this record as the program holds them.
    pub fn schema() -> (headings: Vec<Heading>)
        ensures
            columns_of(headings@) == ElementType::columns(),
    {
        let mut headings: Vec<Heading> = Vec::new();
        headings.push(Heading { name: "id", kind: Kind::Integer });
        headings.push(Heading { name: "plural_name", kind: Kind::Text });
        headings.push(Heading { name: "plural_name_short", kind: Kind::Text });
        headings.push(Heading { name: "singular_name", kind: Kind::Text });
        headings.push(Heading { name: "singular_name_short", kind: Kind::Text });
        headings.push(Heading { name: "squad_select", kind: Kind::Integer });
        headings.push(Heading { name: "squad_min_play", kind: Kind::Integer });
        headings.push(Heading { name: "squad_max_play", kind: Kind::Integer });
        headings.push(Heading { name: "ui_shirt_specific", kind: Kind::Boolean });
        headings.push(Heading { name: "element_count", kind: Kind::Integer });
        proof {
            ElementType::lemma_columns();
            assert(columns_of(headings@) =~= ElementType::columns());
        }
        headings
    }

    /// The record that holds `fields` under its columns and, beside them,
    /// the given parts.
    pub fn from_parts(
        fields: &Vec<Field>,
        sub_positions_locked: Vec<i64>,
    ) -> (x: ElementType)
        requires
            conforms(cells_of(fields@), ElementType::columns()),
        ensures
            x.cells() == cells_of(fields@),
            x.sub_positions_locked == sub_positions_locked,
    {
        proof {
            ElementType::lemma_columns();
            assert forall|i: int| 0 <= i < fields@.len() implies cell_fits(
                (#[trigger] fields@[i])@,
                ElementType::columns()[i].kind,
            ) by {
                assert(cells_of(fields@)[i] == fields@[i]@);
            }
        }
        let x = ElementType {
            id: fields[0].integer(),
            plural_name: fields[1].text(),
            plural_name_short: fields[2].text(),
            singular_name: fields[3].text(),
            singular_name_short: fields[4].text(),
            squad_select: fields[5].integer(),
            squad_min_play: fields[6].integer(),
            squad_max_play: fields[7].integer(),
            ui_shirt_specific: fields[8].boolean(),
            sub_positions_locked,
            element_count: fields[9].integer(),
        };
        proof {
            x.lemma_cells();
            assert(x.cells() =~= cells_of(fields@));
        }
        x
    }

    /// The cells of this record as the program holds them.
    pub fn fields(&self) -> (fields: Vec<Field>)
        ensures
            cells_of(fields@) == self.cells(),
    {
        let mut fields: Vec<Field> = Vec::new();
        fields.push(Field::Int(self.id));
        fields.push(Field::Text(self.plural_name.clone()));
        fields.push(Field::Text(self.plural_name_short.clone()));
        fields.push(Field::Text(self.singular_name.clone()));
        fields.push(Field::Text(self.singular_name_short.clone()));
        fields.push(Field::Int(self.squad_select));
        fields.push(Field::Int(self.squad_min_play));
        fields.push(Field::Int(self.squad_max_play));
        fields.push(Field::Bool(self.ui_shirt_specific));
        fields.push(Field::Int(self.element_count));
        proof {
            self.lemma_cells();
            assert(cells_of(fields@) =~= self.cells());
        }
        fields
    }
}

impl Decode for ElementType {
    open spec fn accepts(d: Doc) -> bool {
        &&& fits(d, ElementType::columns())
        &&& holds::<Vec<i64>>(d, "sub_positions_locked"@)
    }

    open spec fn agrees(&self, d: Doc) -> bool {
        &&& self.cells() == row_of(d, ElementType::columns())
        &&& held(d, "sub_positions_locked"@, self.sub_positions_locked)
    }

    fn decode(j: &Json) -> (r: Result<ElementType, DecodeError>) {
        let fields = read_row(j, &ElementType::schema())?;
        let sub_positions_locked = required::<Vec<i64>>(j, "sub_positions_locked")?;
        proof {
            lemma_row_conforms(j@, ElementType::columns());
        }
        Ok(ElementType::from_parts(&fields, sub_positions_locked))
    }
}
impl Decode for General {
    open spec fn accepts(d: Doc) -> bool {
        &&& d is Record
        &&& holds::<Vec<Event>>(d, "events"@)
        &&& holds::<GameSettings>(d, "game_settings"@)
        &&& holds::<Vec<Phase>>(d, "phases"@)
        &&& holds::<Vec<Team>>(d, "teams"@)
        &&& holds::<i64>(d, "total_players"@)
        &&& holds::<Vec<Element>>(d, "elements"@)
        &&& holds::<Vec<ElementStat>>(d, "element_stats"@)
        &&& holds::<Vec<ElementType>>(d, "element_types"@)
    }

    open spec fn agrees(&self, d: Doc) -> bool {
        &&& held(d, "events"@, self.events)
        &&& held(d, "game_settings"@, self.game_settings)
        &&& held(d, "phases"@, self.phases)
        &&& held(d, "teams"@, self.teams)
        &&& held(d, "total_players"@, self.total_players)
        &&& held(d, "elements"@, self.elements)
        &&& held(d, "element_stats"@, self.element_stats)
        &&& held(d, "element_types"@, self.element_types)
    }

    fn decode(j: &Json) -> (r: Result<General, DecodeError>) {
        let events = required::<Vec<Event>>(j, "events")?;
        let game_settings = required::<GameSettings>(j, "game_settings")?;
        let phases = required::<Vec<Phase>>(j, "phases")?;
        let teams = required::<Vec<Team>>(j, "teams")?;
        let total_players = required::<i64>(j, "total_players")?;
        let elements = required::<Vec<Element>>(j, "elements")?;
        let element_stats = required::<Vec<ElementStat>>(j, "element_stats")?;
        let element_types = required::<Vec<ElementType>>(j, "element_types")?;
        Ok(
            General {
                events,
                game_settings,
                phases,
                teams,
                total_players,
                elements,
                element_stats,
                element_types,
            },
        )
    }
}

} // verus!
