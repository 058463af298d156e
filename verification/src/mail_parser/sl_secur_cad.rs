//! A reader for the dispatch mails of one control-centre software.
use vstd::prelude::*;
use vstd::string::StringExecFns;
use crate::alarm::{AddressView, Alarm, AlarmView, Coordinates, CoordinatesView};
use crate::config::alarm_sources::MailConfig;
use crate::mail_parser::helpers::{
    get_table_key_order, html_table_rows, parse_tables, table_of, titles_of,
};
use crate::mail_parser::{MailParser, ParseError, Reading};
use crate::name_map::{first_index, lemma_first_index, position_of, NameMap};
use crate::text::{first_group, first_group_match};

verus! {

/// A reader for mails that carry the alarm in an HTML table.
#[derive(Debug)]
pub struct SecurCadParser;

/// The first cell under `title`: empty where the table has no such title,
/// and none where the title has no cell.
pub open spec fn field(table: Map<Seq<char>, Seq<Seq<char>>>, title: Seq<char>) -> Option<
    Seq<char>,
> {
    if !table.contains_key(title) {
        Some(Seq::empty())
    } else if table[title].len() > 0 {
        Some(table[title][0])
    } else {
        None
    }
}

fn first_value(table: &NameMap<Vec<String>>, title: &str) -> (value: Option<String>)
    ensures
        value.deep_view() == field(table@, title@),
{
    match table.get(title) {
        Some(cells) => {
            if cells.len() > 0 {
                assert(cells.deep_view()[0] == cells[0]@);
                Some(cells[0].clone())
            } else {
                None
            }
        },
        None => Some(String::new()),
    }
}

/// The cells that an alarm is read from.
pub struct Fields {
    pub id: String,
    pub keyword: String,
    pub incident: String,
    pub object: String,
    pub matter: String,
    pub street: String,
    pub street_number: String,
    pub city: String,
    pub info: String,
    pub utm: String,
}

/// The mathematical value of [`Fields`].
pub ghost struct FieldsView {
    pub id: Seq<char>,
    pub keyword: Seq<char>,
    pub incident: Seq<char>,
    pub object: Seq<char>,
    pub matter: Seq<char>,
    pub street: Seq<char>,
    pub street_number: Seq<char>,
    pub city: Seq<char>,
    pub info: Seq<char>,
    pub utm: Seq<char>,
}

impl DeepView for Fields {
    type V = FieldsView;

    open spec fn deep_view(&self) -> FieldsView {
        FieldsView {
            id: self.id@,
            keyword: self.keyword@,
            incident: self.incident@,
            object: self.object@,
            matter: self.matter@,
            street: self.street@,
            street_number: self.street_number@,
            city: self.city@,
            info: self.info@,
            utm: self.utm@,
        }
    }
}

/// Whether every row that an alarm is read from has a cell, as far as the
/// table has the row.
pub open spec fn fields_complete(table: Map<Seq<char>, Seq<Seq<char>>>) -> bool {
    &&& field(table, "Auftragsnummer:"@) is Some
    &&& field(table, "Stichwort:"@) is Some
    &&& field(table, "Notfallgeschehen:"@) is Some
    &&& field(table, "Objekt:"@) is Some
    &&& field(table, "Sachverhalt:"@) is Some
    &&& field(table, "Strasse:"@) is Some
    &&& field(table, "Strasse / Hs.-Nr.:"@) is Some
    &&& field(table, "PLZ / Ort:"@) is Some
    &&& field(table, "Info:"@) is Some
    &&& field(table, "UTM:"@) is Some
}

/// The cells that an alarm is read from; none where a row has no cell.
pub open spec fn fields_of(table: Map<Seq<char>, Seq<Seq<char>>>) -> Option<FieldsView> {
    if fields_complete(table) {
        Some(
            FieldsView {
                id: field(table, "Auftragsnummer:"@)->0,
                keyword: field(table, "Stichwort:"@)->0,
                incident: field(table, "Notfallgeschehen:"@)->0,
                object: field(table, "Objekt:"@)->0,
                matter: field(table, "Sachverhalt:"@)->0,
                street: field(table, "Strasse:"@)->0,
                street_number: field(table, "Strasse / Hs.-Nr.:"@)->0,
                city: field(table, "PLZ / Ort:"@)->0,
                info: field(table, "Info:"@)->0,
                utm: field(table, "UTM:"@)->0,
            },
        )
    } else {
        None
    }
}

/// Reads the cells that an alarm is read from.
pub fn read_fields(table: &NameMap<Vec<String>>) -> (fields: Option<Fields>)
    ensures
        fields.deep_view() == fields_of(table@),
{
    let id = first_value(table, "Auftragsnummer:")?;
    let keyword = first_value(table, "Stichwort:")?;
    let incident = first_value(table, "Notfallgeschehen:")?;
    let object = first_value(table, "Objekt:")?;
    let matter = first_value(table, "Sachverhalt:")?;
    let street = first_value(table, "Strasse:")?;
    let street_number = first_value(table, "Strasse / Hs.-Nr.:")?;
    let city = first_value(table, "PLZ / Ort:")?;
    let info = first_value(table, "Info:")?;
    let utm = first_value(table, "UTM:")?;
    Some(
        Fields { id, keyword, incident, object, matter, street, street_number, city, info, utm },
    )
}

/// The pattern that finds what stands between the first opening and the
/// last closing bracket of a line.
pub open spec fn title_pattern() -> Seq<char> {
    "\\((.*)\\)"@
}

/// `new` where it is not empty, else `current`.
pub open spec fn unless_empty(new: Seq<char>, current: Seq<char>) -> Seq<char> {
    if new.len() > 0 {
        new
    } else {
        current
    }
}

/// The alarm with what the cells say: the identifier; as the title what
/// stands in brackets in the incident, or the whole incident, where there is
/// one; as the text the matter, or the object where there is none; the object
/// of the address, and its street (with the house number where it is
/// given), city, remark and UTM reference as far as the cells give them. The
/// position is cleared: the format has no field for it that can be read.
pub open spec fn with_fields(
    alarm: AlarmView,
    fields: FieldsView,
    bracketed: Option<Seq<char>>,
) -> AlarmView {
    AlarmView {
        id: fields.id,
        title: if fields.incident.len() > 0 {
            match bracketed {
                Some(title) => title,
                None => fields.incident,
            }
        } else {
            alarm.title
        },
        text: unless_empty(fields.matter, fields.object),
        address: AddressView {
            street: unless_empty(
                fields.street_number,
                unless_empty(fields.street, alarm.address.street),
            ),
            city: unless_empty(fields.city, alarm.address.city),
            object: fields.object,
            object_id: alarm.address.object_id,
            info: unless_empty(fields.info, alarm.address.info),
            utm: unless_empty(fields.utm, alarm.address.utm),
            coords: CoordinatesView { lat: None, lon: None },
        },
        ..alarm
    }
}

/// Writes what the cells say into the alarm.
pub fn apply_fields(alarm: &mut Alarm, fields: Fields, bracketed: Option<String>)
    ensures
        final(alarm)@ == with_fields(old(alarm)@, fields.deep_view(), bracketed.deep_view()),
        final(alarm).receiver == old(alarm).receiver,
{
    alarm.set_id(fields.id);
    if !fields.incident.as_str().is_empty() {
        match bracketed {
            Some(title) => alarm.set_title(title),
            None => alarm.set_title(fields.incident),
        }
    }
    if !fields.matter.as_str().is_empty() {
        alarm.set_text(fields.matter);
    } else {
        alarm.set_text(fields.object.clone());
    }
    alarm.address.set_object(fields.object);
    if !fields.street.as_str().is_empty() {
        alarm.address.set_street(fields.street);
    }
    if !fields.street_number.as_str().is_empty() {
        alarm.address.set_street(fields.street_number);
    }
    if !fields.city.as_str().is_empty() {
        alarm.address.set_city(fields.city);
    }
    if !fields.info.as_str().is_empty() {
        alarm.address.set_info(fields.info);
    }
    if !fields.utm.as_str().is_empty() {
        alarm.address.set_utm(fields.utm);
    }
    alarm.address.set_coords(Coordinates { lat: None, lon: None });
}

/// Where the units start among the row titles: after the title of the
/// resources, or at the first title where there is none.
pub open spec fn unit_start(order: Seq<Seq<char>>) -> int {
    if order.contains("Ressourcen"@) {
        first_index(order, "Ressourcen"@) + 1
    } else {
        0
    }
}

/// Where the units end among the row titles: before the title of the
/// caller. Without that title, or where it does not come after the start,
/// there are no units.
pub open spec fn unit_end(order: Seq<Seq<char>>) -> int {
    if order.contains("Meldender des Hilfeersuchens"@) {
        first_index(order, "Meldender des Hilfeersuchens"@)
    } else {
        0
    }
}

/// Whether a row title names a unit of the alarm: the table holds it and
/// the configuration does not ignore it.
pub open spec fn is_unit(
    table: Map<Seq<char>, Seq<Seq<char>>>,
    ignored: Seq<Seq<char>>,
    title: Seq<char>,
) -> bool {
    table.contains_key(title) && !ignored.contains(title)
}

/// The units among `order[from..to]`, in order.
pub open spec fn units_in(
    order: Seq<Seq<char>>,
    table: Map<Seq<char>, Seq<Seq<char>>>,
    ignored: Seq<Seq<char>>,
    from: int,
    to: int,
) -> Seq<Seq<char>>
    decreases to - from,
{
    if to <= from {
        Seq::empty()
    } else if is_unit(table, ignored, order[to - 1]) {
        units_in(order, table, ignored, from, to - 1).push(order[to - 1])
    } else {
        units_in(order, table, ignored, from, to - 1)
    }
}

/// The templates that the first `n` of `units` call for, in order.
pub open spec fn templates_for(
    units: Seq<Seq<char>>,
    keywords: Map<Seq<char>, Seq<char>>,
    n: int,
) -> Seq<Seq<char>>
    decreases n,
{
    if n <= 0 {
        Seq::empty()
    } else if keywords.contains_key(units[n - 1]) {
        templates_for(units, keywords, n - 1).push(keywords[units[n - 1]])
    } else {
        templates_for(units, keywords, n - 1)
    }
}

/// The alarm with the units that the table names added, and with the
/// templates that its units, old and new, call for. Nothing changes where
/// the row titles mark no stretch of units.
pub open spec fn with_units(
    alarm: AlarmView,
    order: Seq<Seq<char>>,
    table: Map<Seq<char>, Seq<Seq<char>>>,
    ignored: Seq<Seq<char>>,
    keywords: Map<Seq<char>, Seq<char>>,
) -> AlarmView {
    if unit_end(order) > unit_start(order) {
        let units = alarm.units + units_in(order, table, ignored, unit_start(order), unit_end(order));
        AlarmView {
            units,
            template_names: alarm.template_names + templates_for(
                units,
                keywords,
                units.len() as int,
            ),
            ..alarm
        }
    } else {
        alarm
    }
}

/// Adds to the alarm the units that the table names and the templates that
/// its units call for.
pub fn add_units(
    alarm: &mut Alarm,
    order: &Vec<String>,
    table: &NameMap<Vec<String>>,
    config: &MailConfig,
)
    ensures
        final(alarm)@ == with_units(
            old(alarm)@,
            order.deep_view(),
            table@,
            config.ignore_units.deep_view(),
            config.alarm_template_keywords@,
        ),
        final(alarm).receiver == old(alarm).receiver,
{
    let ghost start_alarm = alarm@;
    let ghost titles = order.deep_view();
    let ghost ignored = config.ignore_units.deep_view();
    let ghost keywords = config.alarm_template_keywords@;
    let start: usize = match position_of(order, "Ressourcen") {
        Some(i) => {
            proof {
                lemma_first_index(titles, "Ressourcen"@);
                assert(titles.len() == order.len());
            }
            i + 1
        },
        None => 0,
    };
    let end: usize = match position_of(order, "Meldender des Hilfeersuchens") {
        Some(i) => {
            proof {
                lemma_first_index(titles, "Meldender des Hilfeersuchens"@);
                assert(titles.len() == order.len());
            }
            i
        },
        None => 0,
    };
    if end <= start {
        return ;
    }
    let mut i: usize = start;
    while i < end
        invariant
            start <= i <= end,
            end <= order.len(),
            titles == order.deep_view(),
            ignored == config.ignore_units.deep_view(),
            alarm.receiver == old(alarm).receiver,
            alarm@ == (AlarmView {
                units: start_alarm.units + units_in(titles, table@, ignored, start as int, i as int),
                ..start_alarm
            }),
        decreases end - i,
    {
        let key = &order[i];
        assert(titles[i as int] == key@);
        let ghost before = units_in(titles, table@, ignored, start as int, i as int);
        if table.contains_key(key.as_str()) && position_of(
            &config.ignore_units,
            key.as_str(),
        ).is_none() {
            alarm.add_unit(key.clone());
            assert(start_alarm.units + before.push(key@) =~= (start_alarm.units + before).push(
                key@,
            ));
        }
        i += 1;
    }
    let ghost with_all = alarm@;
    let n = alarm.units.len();
    let mut j: usize = 0;
    while j < n
        invariant
            j <= n,
            n == alarm@.units.len(),
            keywords == config.alarm_template_keywords@,
            alarm.receiver == old(alarm).receiver,
            alarm@ == (AlarmView {
                template_names: with_all.template_names + templates_for(
                    with_all.units,
                    keywords,
                    j as int,
                ),
                ..with_all
            }),
        decreases n - j,
    {
        let ghost before = templates_for(with_all.units, keywords, j as int);
        assert(alarm.units.deep_view().len() == alarm.units.len());
        assert(with_all.units[j as int] == alarm.units[j as int]@);
        match config.alarm_template_keywords.get(alarm.units[j].as_str()) {
            Some(template) => {
                alarm.add_template_name(template.clone());
                assert(with_all.template_names + before.push(template@) =~= (
                with_all.template_names + before).push(template@));
            },
            None => {},
        }
        j += 1;
    }
}

/// What the reader makes of a mail whose tables hold `rows`.
pub open spec fn reading_of_rows(
    rows: Seq<Seq<Seq<char>>>,
    text_body: Seq<char>,
    alarm: AlarmView,
    config: MailConfig,
) -> Reading {
    match table_of(rows) {
        None => Reading { alarm, summary: Err(ParseError::Undecodable) },
        Some(table) => match fields_of(table) {
            None => Reading { alarm, summary: Err(ParseError::EmptyRow) },
            Some(fields) => Reading {
                alarm: with_units(
                    with_fields(
                        alarm,
                        fields,
                        first_group_match(title_pattern(), fields.incident),
                    ),
                    titles_of(rows, rows.len() as int),
                    table,
                    config.ignore_units.deep_view(),
                    config.alarm_template_keywords@,
                ),
                summary: Ok("Parsed SecurCad: "@ + text_body),
            },
        },
    }
}

impl MailParser for SecurCadParser {
    /// The tables are looked for in the plain text followed by the HTML
    /// text. Where a cell cannot be decoded or a needed row has no cell, the
    /// reading fails and the alarm stays as it was.
    open spec fn reading(
        &self,
        text_body: Seq<char>,
        html_body: Seq<char>,
        alarm: AlarmView,
        config: MailConfig,
    ) -> Reading {
        reading_of_rows(html_table_rows(text_body + html_body), text_body, alarm, config)
    }

    fn parse(&self, text_body: &str, html_body: &str, alarm: &mut Alarm, config: &MailConfig) -> (result:
        Result<String, ParseError>) {
        let mut body = text_body.to_string();
        body.append(html_body);
        let table = match parse_tables(body.as_str()) {
            Some(table) => table,
            None => {
                return Err(ParseError::Undecodable);
            },
        };
        let fields = match read_fields(&table) {
            Some(fields) => fields,
            None => {
                return Err(ParseError::EmptyRow);
            },
        };
        let bracketed = first_group("\\((.*)\\)", fields.incident.as_str());
        apply_fields(alarm, fields, bracketed);
        let order = get_table_key_order(body.as_str());
        add_units(alarm, &order, &table, config);
        let mut summary = "Parsed SecurCad: ".to_string();
        summary.append(text_body);
        Ok(summary)
    }
}

} // verus!
