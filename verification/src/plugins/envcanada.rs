//! The Environment Canada city page feed: which condition each of its
//! texts stands for, and what the weather plugin reads out of the feed.
use vstd::prelude::*;
use crate::text::str_eq;
use crate::plugins::weather::Conditions;

verus! {

/// The condition that a textual condition of the feed stands for; any text
/// not listed is `Unknown`.
pub open spec fn spec_condition_mapper(s: Seq<char>) -> Conditions {
    if s == "Sunny"@ {
        Conditions::Clear
    } else if s == "Mainly Sunny"@ {
        Conditions::MainlyClear
    } else if s == "Partly Cloudy"@ {
        Conditions::PartlyCloudy
    } else if s == "Mostly Cloudy"@ {
        Conditions::MostlyCloudy
    } else if s == "Light Rain Shower"@ {
        Conditions::LightRain
    } else if s == "Light Rain Shower and Flurries"@ {
        Conditions::LightRain
    } else if s == "Light Flurries"@ {
        Conditions::Flurries
    } else if s == "Cloudy"@ {
        Conditions::Cloudy
    } else if s == "Precipitation"@ {
        Conditions::Rain
    } else if s == "Squalls"@ {
        Conditions::HeavySnow
    } else if s == "Light Precipitation"@ {
        Conditions::LightRain
    } else if s == "Heavy Precipitation"@ {
        Conditions::HeavyRain
    } else if s == "Rain Shower"@ {
        Conditions::Rain
    } else if s == "Light Rain and Drizzle"@ {
        Conditions::LightRain
    } else if s == "Light Rain"@ {
        Conditions::LightRain
    } else if s == "Rain"@ {
        Conditions::Rain
    } else if s == "Rain and Drizzle"@ {
        Conditions::Rain
    } else if s == "Heavy Rain and Drizzle"@ {
        Conditions::HeavyRain
    } else if s == "Heavy Rain Shower"@ {
        Conditions::HeavyRain
    } else if s == "Heavy Rain"@ {
        Conditions::HeavyRain
    } else if s == "Light Freezing Drizzle"@ {
        Conditions::LightFreezingRain
    } else if s == "Light Freezing Rain"@ {
        Conditions::LightFreezingRain
    } else if s == "Heavy Freezing Drizzle"@ {
        Conditions::HeavyFreezingRain
    } else if s == "Heavy Freezing Rain"@ {
        Conditions::HeavyFreezingRain
    } else if s == "Freezing Drizzle"@ {
        Conditions::LightFreezingRain
    } else if s == "Freezing Rain"@ {
        Conditions::FreezingRain
    } else if s == "Rain and Flurries"@ {
        Conditions::Rain
    } else if s == "Rain and Snow"@ {
        Conditions::Snow
    } else if s == "Heavy Rain Shower and Flurries"@ {
        Conditions::HeavyRain
    } else if s == "Heavy Rain and Snow"@ {
        Conditions::HeavyRain
    } else if s == "Light Snow"@ {
        Conditions::LightSnow
    } else if s == "Snow"@ {
        Conditions::Snow
    } else if s == "Flurries"@ {
        Conditions::Flurries
    } else if s == "Heavy Flurries"@ {
        Conditions::Flurries
    } else if s == "Heavy Snow"@ {
        Conditions::HeavySnow
    } else if s == "Thunderstorm with Rain"@ {
        Conditions::Thunderstorm
    } else if s == "Thunderstorm with Heavy Rain"@ {
        Conditions::Thunderstorm
    } else if s == "Thunderstorm with Light Rain"@ {
        Conditions::Thunderstorm
    } else if s == "Thunderstorm"@ {
        Conditions::Thunderstorm
    } else if s == "Heavy Thunderstorm"@ {
        Conditions::Thunderstorm
    } else if s == "Heavy Thunderstorm with Rain"@ {
        Conditions::Thunderstorm
    } else if s == "Haze"@ {
        Conditions::Fog
    } else if s == "Fog"@ {
        Conditions::Fog
    } else if s == "Ice Fog"@ {
        Conditions::Fog
    } else if s == "Fog Patches"@ {
        Conditions::Fog
    } else if s == "Shallow Fog"@ {
        Conditions::Fog
    } else if s == "Mist"@ {
        Conditions::Fog
    } else if s == "Drifting Snow"@ {
        Conditions::LightSnow
    } else if s == "Ice Crystals"@ {
        Conditions::LightSnow
    } else if s == "Snow Pellets"@ {
        Conditions::LightFreezingRain
    } else if s == "Ice Pellets"@ {
        Conditions::LightFreezingRain
    } else if s == "Hail"@ {
        Conditions::Hail
    } else if s == "Snow Grains"@ {
        Conditions::LightSnow
    } else if s == "Light Drizzle"@ {
        Conditions::Drizzle
    } else if s == "Heavy Drizzle"@ {
        Conditions::Drizzle
    } else if s == "Drizzle"@ {
        Conditions::Drizzle
    } else if s == "Clear"@ {
        Conditions::Clear
    } else if s == "Mainly Clear"@ {
        Conditions::MainlyClear
    } else {
        Conditions::Unknown
    }
}

/// Maps a textual condition of the feed to a condition.
pub fn condition_mapper(condition: &str) -> (r: Conditions)
    ensures
        r == spec_condition_mapper(condition@),
{
    if str_eq(condition, "Sunny") {
        Conditions::Clear
    } else if str_eq(condition, "Mainly Sunny") {
        Conditions::MainlyClear
    } else if str_eq(condition, "Partly Cloudy") {
        Conditions::PartlyCloudy
    } else if str_eq(condition, "Mostly Cloudy") {
        Conditions::MostlyCloudy
    } else if str_eq(condition, "Light Rain Shower") {
        Conditions::LightRain
    } else if str_eq(condition, "Light Rain Shower and Flurries") {
        Conditions::LightRain
    } else if str_eq(condition, "Light Flurries") {
        Conditions::Flurries
    } else if str_eq(condition, "Cloudy") {
        Conditions::Cloudy
    } else if str_eq(condition, "Precipitation") {
        Conditions::Rain
    } else if str_eq(condition, "Squalls") {
        Conditions::HeavySnow
    } else if str_eq(condition, "Light Precipitation") {
        Conditions::LightRain
    } else if str_eq(condition, "Heavy Precipitation") {
        Conditions::HeavyRain
    } else if str_eq(condition, "Rain Shower") {
        Conditions::Rain
    } else if str_eq(condition, "Light Rain and Drizzle") {
        Conditions::LightRain
    } else if str_eq(condition, "Light Rain") {
        Conditions::LightRain
    } else if str_eq(condition, "Rain") {
        Conditions::Rain
    } else if str_eq(condition, "Rain and Drizzle") {
        Conditions::Rain
    } else if str_eq(condition, "Heavy Rain and Drizzle") {
        Conditions::HeavyRain
    } else if str_eq(condition, "Heavy Rain Shower") {
        Conditions::HeavyRain
    } else if str_eq(condition, "Heavy Rain") {
        Conditions::HeavyRain
    } else if str_eq(condition, "Light Freezing Drizzle") {
        Conditions::LightFreezingRain
    } else if str_eq(condition, "Light Freezing Rain") {
        Conditions::LightFreezingRain
    } else if str_eq(condition, "Heavy Freezing Drizzle") {
        Conditions::HeavyFreezingRain
    } else if str_eq(condition, "Heavy Freezing Rain") {
        Conditions::HeavyFreezingRain
    } else if str_eq(condition, "Freezing Drizzle") {
        Conditions::LightFreezingRain
    } else if str_eq(condition, "Freezing Rain") {
        Conditions::FreezingRain
    } else if str_eq(condition, "Rain and Flurries") {
        Conditions::Rain
    } else if str_eq(condition, "Rain and Snow") {
        Conditions::Snow
    } else if str_eq(condition, "Heavy Rain Shower and Flurries") {
        Conditions::HeavyRain
    } else if str_eq(condition, "Heavy Rain and Snow") {
        Conditions::HeavyRain
    } else if str_eq(condition, "Light Snow") {
        Conditions::LightSnow
    } else if str_eq(condition, "Snow") {
        Conditions::Snow
    } else if str_eq(condition, "Flurries") {
        Conditions::Flurries
    } else if str_eq(condition, "Heavy Flurries") {
        Conditions::Flurries
    } else if str_eq(condition, "Heavy Snow") {
        Conditions::HeavySnow
    } else if str_eq(condition, "Thunderstorm with Rain") {
        Conditions::Thunderstorm
    } else if str_eq(condition, "Thunderstorm with Heavy Rain") {
        Conditions::Thunderstorm
    } else if str_eq(condition, "Thunderstorm with Light Rain") {
        Conditions::Thunderstorm
    } else if str_eq(condition, "Thunderstorm") {
        Conditions::Thunderstorm
    } else if str_eq(condition, "Heavy Thunderstorm") {
        Conditions::Thunderstorm
    } else if str_eq(condition, "Heavy Thunderstorm with Rain") {
        Conditions::Thunderstorm
    } else if str_eq(condition, "Haze") {
        Conditions::Fog
    } else if str_eq(condition, "Fog") {
        Conditions::Fog
    } else if str_eq(condition, "Ice Fog") {
        Conditions::Fog
    } else if str_eq(condition, "Fog Patches") {
        Conditions::Fog
    } else if str_eq(condition, "Shallow Fog") {
        Conditions::Fog
    } else if str_eq(condition, "Mist") {
        Conditions::Fog
    } else if str_eq(condition, "Drifting Snow") {
        Conditions::LightSnow
    } else if str_eq(condition, "Ice Crystals") {
        Conditions::LightSnow
    } else if str_eq(condition, "Snow Pellets") {
        Conditions::LightFreezingRain
    } else if str_eq(condition, "Ice Pellets") {
        Conditions::LightFreezingRain
    } else if str_eq(condition, "Hail") {
        Conditions::Hail
    } else if str_eq(condition, "Snow Grains") {
        Conditions::LightSnow
    } else if str_eq(condition, "Light Drizzle") {
        Conditions::Drizzle
    } else if str_eq(condition, "Heavy Drizzle") {
        Conditions::Drizzle
    } else if str_eq(condition, "Drizzle") {
        Conditions::Drizzle
    } else if str_eq(condition, "Clear") {
        Conditions::Clear
    } else if str_eq(condition, "Mainly Clear") {
        Conditions::MainlyClear
    } else {
        Conditions::Unknown
    }
}

/// The raw events of an XML document that the feed reader tells apart:
/// start and end tags by name, text by its escaped bytes.
pub enum XmlEvent {
    Start(String),
    End(String),
    Text(Vec<u8>),
    Eof,
    Other,
    Error,
}

/// A reader of one XML document, positioned after the events it has
/// given so far.
#[verifier::external_body]
pub struct XmlReader<'a> {
    reader: quick_xml::Reader<&'a [u8]>,
}

/// Whether an event ends the reading: the end of the document or an error.
pub open spec fn is_final_event(ev: XmlEvent) -> bool {
    ev is Eof || ev is Error
}

/// Whether `evs` is a whole reading: at least one event, the last one the
/// end of the document or an error, and no earlier one either.
pub open spec fn ends_once(evs: Seq<XmlEvent>) -> bool {
    &&& evs.len() > 0
    &&& is_final_event(evs.last())
    &&& forall|i: int| 0 <= i < evs.len() - 1 ==> !is_final_event(#[trigger] evs[i])
}

/// The events that quick-xml reads from the document `xml` with its
/// default settings, in order, up to and including the end of the document
/// or the first error.
pub uninterp spec fn spec_xml_events(xml: Seq<char>) -> Seq<XmlEvent>;

/// The events that the reader `r` has not given yet, up to and including
/// the end of the document or the first error; empty once that final event
/// has been given (the reader then only gives the end again).
pub uninterp spec fn spec_pending_events(r: XmlReader) -> Seq<XmlEvent>;

/// What `BytesText::unescape_and_decode` makes of the escaped text `raw`:
/// its unescaped content, where `raw` and the content are valid UTF-8 and
/// every escape is known.
pub uninterp spec fn spec_xml_text(raw: Seq<u8>) -> Option<Seq<char>>;

/// `quick_xml::events::BytesText::unescape_and_decode` on the escaped text
/// `raw`. Without the `encoding` feature its decoding is `from_utf8` and
/// does not read the reader, so the result is a function of `raw` alone.
#[verifier::external_body]
fn xml_text(raw: &[u8]) -> (r: Option<String>)
    ensures
        match r {
            Some(t) => spec_xml_text(raw@) == Some(t@),
            None => spec_xml_text(raw@) is None,
        },
{
    quick_xml::events::BytesText::from_escaped(raw).unescape_and_decode(&quick_xml::Reader::from_str("")).ok()
}

/// `quick_xml::Reader::from_str`: a reader at the start of the document
/// `xml`, whose events are those of the document. With the default
/// settings every call of `read_event` that neither ends the document nor
/// fails consumes at least one byte, and after the end or an error the
/// reader only gives the end: so its events up to the end or the first
/// error are finitely many and end once.
#[verifier::external_body]
fn xml_reader<'a>(xml: &'a str) -> (r: XmlReader<'a>)
    ensures
        spec_pending_events(r) == spec_xml_events(xml@),
        ends_once(spec_pending_events(r)),
{
    XmlReader { reader: quick_xml::Reader::from_str(xml) }
}

/// `quick_xml::Reader::read_event`: the next event of the document, which
/// the reader then has behind it. With the default settings an event does
/// not depend on what `buf` held before the call.
#[verifier::external_body]
fn next_xml_event(reader: &mut XmlReader, buf: &mut Vec<u8>) -> (ev: XmlEvent)
    ensures
        spec_pending_events(*old(reader)).len() > 0 ==> ev == spec_pending_events(*old(reader))[0],
        spec_pending_events(*old(reader)).len() > 0 ==> spec_pending_events(*final(reader))
            == spec_pending_events(*old(reader)).drop_first(),
{
    match reader.reader.read_event(buf) {
        Ok(quick_xml::events::Event::Start(e)) => XmlEvent::Start(String::from_utf8_lossy(e.name()).into_owned()),
        Ok(quick_xml::events::Event::End(e)) => XmlEvent::End(String::from_utf8_lossy(e.name()).into_owned()),
        Ok(quick_xml::events::Event::Text(e)) => XmlEvent::Text(e.to_vec()),
        Ok(quick_xml::events::Event::Eof) => XmlEvent::Eof,
        Ok(_) => XmlEvent::Other,
        Err(_) => XmlEvent::Error,
    }
}

/// Which elements the parser is inside of.
#[derive(Copy, Clone)]
pub struct Flags {
    pub current_conditions: bool,
    pub temperature: bool,
    pub pressure: bool,
    pub wind: bool,
    pub speed: bool,
    pub direction: bool,
    pub dewpoint: bool,
    pub condition: bool,
}

/// The current conditions as the feed gives them: each measurement as its
/// text (`None` where the feed gives none), the wind direction (`N` where
/// the feed gives none) and the condition.
pub struct ConditionsText {
    pub temperature: Option<String>,
    pub pressure: Option<String>,
    pub dewpoint: Option<String>,
    pub wind_speed: Option<String>,
    pub wind_direction: String,
    pub conditions: Conditions,
}

/// The current conditions by the characters of each text.
pub struct ConditionsView {
    pub temperature: Option<Seq<char>>,
    pub pressure: Option<Seq<char>>,
    pub dewpoint: Option<Seq<char>>,
    pub wind_speed: Option<Seq<char>>,
    pub wind_direction: Seq<char>,
    pub conditions: Conditions,
}

pub open spec fn opt_view(o: Option<String>) -> Option<Seq<char>> {
    match o {
        Some(s) => Some(s@),
        None => None,
    }
}

impl ConditionsText {
    pub open spec fn view(&self) -> ConditionsView {
        ConditionsView {
            temperature: opt_view(self.temperature),
            pressure: opt_view(self.pressure),
            dewpoint: opt_view(self.dewpoint),
            wind_speed: opt_view(self.wind_speed),
            wind_direction: self.wind_direction@,
            conditions: self.conditions,
        }
    }
}

/// Outside every element.
pub open spec fn no_flags() -> Flags {
    Flags {
        current_conditions: false,
        temperature: false,
        pressure: false,
        wind: false,
        speed: false,
        direction: false,
        dewpoint: false,
        condition: false,
    }
}

/// The conditions before any are read.
pub open spec fn initial_conditions() -> ConditionsView {
    ConditionsView {
        temperature: None,
        pressure: None,
        dewpoint: None,
        wind_speed: None,
        wind_direction: "N"@,
        conditions: Conditions::Unknown,
    }
}

/// The flags after entering (`on`) or leaving the element `name`.
pub open spec fn tag_step(f: Flags, name: Seq<char>, on: bool) -> Flags {
    if name == "currentConditions"@ {
        Flags { current_conditions: on, ..f }
    } else if name == "temperature"@ {
        Flags { temperature: on, ..f }
    } else if name == "pressure"@ {
        Flags { pressure: on, ..f }
    } else if name == "wind"@ {
        Flags { wind: on, ..f }
    } else if name == "speed"@ {
        Flags { speed: on, ..f }
    } else if name == "direction"@ {
        Flags { direction: on, ..f }
    } else if name == "dewpoint"@ {
        Flags { dewpoint: on, ..f }
    } else if name == "condition"@ {
        Flags { condition: on, ..f }
    } else {
        f
    }
}

/// The conditions after the text `t` inside the current conditions: it
/// goes to the first measurement whose element the parser is inside of.
pub open spec fn text_step(f: Flags, c: ConditionsView, t: Seq<char>) -> ConditionsView {
    if f.temperature {
        ConditionsView { temperature: Some(t), ..c }
    } else if f.pressure {
        ConditionsView { pressure: Some(t), ..c }
    } else if f.dewpoint {
        ConditionsView { dewpoint: Some(t), ..c }
    } else if f.wind && f.speed {
        ConditionsView { wind_speed: Some(t), ..c }
    } else if f.wind && f.direction {
        ConditionsView { wind_direction: t, ..c }
    } else if f.condition {
        ConditionsView { conditions: spec_condition_mapper(t), ..c }
    } else {
        c
    }
}

/// The state after one event that is neither the end of the document nor
/// an error; `None` where a text of the current conditions cannot be
/// decoded.
pub open spec fn event_step(f: Flags, c: ConditionsView, ev: XmlEvent) -> Option<(Flags, ConditionsView)> {
    match ev {
        XmlEvent::Start(n) => Some((tag_step(f, n@, true), c)),
        XmlEvent::End(n) => Some((tag_step(f, n@, false), c)),
        XmlEvent::Text(raw) => if f.current_conditions {
            match spec_xml_text(raw@) {
                Some(t) => Some((f, text_step(f, c, t))),
                None => None,
            }
        } else {
            Some((f, c))
        },
        _ => Some((f, c)),
    }
}

/// The conditions read from the events `evs`, up to the end of the
/// document (or of `evs`); `None` on an error event or text that cannot be
/// decoded.
pub open spec fn run_events(evs: Seq<XmlEvent>, f: Flags, c: ConditionsView) -> Option<ConditionsView>
    decreases evs.len(),
{
    if evs.len() == 0 {
        Some(c)
    } else {
        match evs[0] {
            XmlEvent::Eof => Some(c),
            XmlEvent::Error => None,
            _ => match event_step(f, c, evs[0]) {
                Some(next) => run_events(evs.drop_first(), next.0, next.1),
                None => None,
            },
        }
    }
}

/// The conditions that the events `evs` of a city page give.
pub open spec fn spec_parse_events(evs: Seq<XmlEvent>) -> Option<ConditionsView> {
    run_events(evs, no_flags(), initial_conditions())
}

fn set_tag(f: &mut Flags, name: &String, on: bool)
    ensures
        *final(f) == tag_step(*old(f), name@, on),
{
    let n = name.as_str();
    if str_eq(n, "currentConditions") {
        f.current_conditions = on;
    } else if str_eq(n, "temperature") {
        f.temperature = on;
    } else if str_eq(n, "pressure") {
        f.pressure = on;
    } else if str_eq(n, "wind") {
        f.wind = on;
    } else if str_eq(n, "speed") {
        f.speed = on;
    } else if str_eq(n, "direction") {
        f.direction = on;
    } else if str_eq(n, "dewpoint") {
        f.dewpoint = on;
    } else if str_eq(n, "condition") {
        f.condition = on;
    }
}

fn set_text(f: &Flags, c: &mut ConditionsText, t: String)
    ensures
        final(c).view() == text_step(*f, old(c).view(), t@),
{
    if f.temperature {
        c.temperature = Some(t);
    } else if f.pressure {
        c.pressure = Some(t);
    } else if f.dewpoint {
        c.dewpoint = Some(t);
    } else if f.wind && f.speed {
        c.wind_speed = Some(t);
    } else if f.wind && f.direction {
        c.wind_direction = t;
    } else if f.condition {
        c.conditions = condition_mapper(t.as_str());
    }
}

/// Applies one event that is neither the end of the document nor an error.
fn step(f: &mut Flags, c: &mut ConditionsText, ev: &XmlEvent) -> (ok: bool)
    ensures
        match event_step(*old(f), old(c).view(), *ev) {
            Some(next) => ok && *final(f) == next.0 && final(c).view() == next.1,
            None => !ok,
        },
{
    match ev {
        XmlEvent::Start(n) => {
            set_tag(f, n, true);
            true
        },
        XmlEvent::End(n) => {
            set_tag(f, n, false);
            true
        },
        XmlEvent::Text(raw) => {
            if f.current_conditions {
                match xml_text(raw.as_slice()) {
                    Some(t) => {
                        set_text(f, c, t);
                        true
                    },
                    None => false,
                }
            } else {
                true
            }
        },
        _ => true,
    }
}

fn initial_text() -> (c: ConditionsText)
    ensures
        c.view() == initial_conditions(),
{
    ConditionsText {
        temperature: None,
        pressure: None,
        dewpoint: None,
        wind_speed: None,
        wind_direction: String::from_str("N"),
        conditions: Conditions::Unknown,
    }
}

/// The current conditions that the events `events` of a city page give:
/// read up to the end of the document; an error event, or a text of the
/// current conditions that cannot be decoded, is refused.
pub fn parse_events(events: &Vec<XmlEvent>) -> (r: Result<ConditionsText, ()>)
    ensures
        match r {
            Ok(c) => spec_parse_events(events@) == Some(c.view()),
            Err(_) => spec_parse_events(events@) is None,
        },
{
    let mut f = Flags {
        current_conditions: false,
        temperature: false,
        pressure: false,
        wind: false,
        speed: false,
        direction: false,
        dewpoint: false,
        condition: false,
    };
    let mut c = initial_text();
    let mut i: usize = 0;
    assert(events@.skip(0) =~= events@);
    while i < events.len()
        invariant
            i <= events@.len(),
            spec_parse_events(events@) == run_events(events@.skip(i as int), f, c.view()),
        decreases events.len() - i,
    {
        let ghost rest = events@.skip(i as int);
        assert(rest[0] == events@[i as int]);
        assert(rest.drop_first() =~= events@.skip(i + 1));
        match &events[i] {
            XmlEvent::Eof => {
                return Ok(c);
            },
            XmlEvent::Error => {
                return Err(());
            },
            ev => {
                if !step(&mut f, &mut c, ev) {
                    return Err(());
                }
            },
        }
        i = i + 1;
    }
    assert(events@.skip(i as int) =~= Seq::<XmlEvent>::empty());
    Ok(c)
}

/// The events of the document `xml`, up to and including its end or the
/// first error.
pub fn xml_events(xml: &str) -> (r: Vec<XmlEvent>)
    ensures
        r@ == spec_xml_events(xml@),
{
    let mut reader = xml_reader(xml);
    let mut buf: Vec<u8> = Vec::new();
    let mut events: Vec<XmlEvent> = Vec::new();
    loop
        invariant
            ends_once(spec_pending_events(reader)),
            events@ + spec_pending_events(reader) == spec_xml_events(xml@),
        decreases spec_pending_events(reader).len(),
    {
        let ghost pending = spec_pending_events(reader);
        let ev = next_xml_event(&mut reader, &mut buf);
        let last = match ev {
            XmlEvent::Eof => true,
            XmlEvent::Error => true,
            _ => false,
        };
        let ghost before = events@;
        events.push(ev);
        assert(events@ + spec_pending_events(reader) =~= before + pending);
        if last {
            proof {
                if pending.len() > 1 {
                    assert(!is_final_event(pending[0]));
                }
                assert(spec_pending_events(reader).len() == 0);
                assert(events@ =~= spec_xml_events(xml@));
            }
            return events;
        }
        proof {
            assert(pending.len() > 1);
            let rest = pending.drop_first();
            assert(rest.last() == pending.last());
            assert forall|i: int| 0 <= i < rest.len() - 1 implies !is_final_event(#[trigger] rest[i]) by {
                assert(rest[i] == pending[i + 1]);
            }
        }
        buf.clear();
    }
}

/// Reads the current conditions out of a city page: the XML document
/// `xml`, as [`parse_events`] reads its events. Where the document is
/// malformed, or a text of the current conditions cannot be decoded, it
/// answers `Err`; it does not panic.
pub fn parse(xml: &str) -> (r: Result<ConditionsText, ()>)
    ensures
        match r {
            Ok(c) => spec_parse_events(spec_xml_events(xml@)) == Some(c.view()),
            Err(_) => spec_parse_events(spec_xml_events(xml@)) is None,
        },
{
    let events = xml_events(xml);
    parse_events(&events)
}

/// The address of the city page feed of the city `city_code` in the
/// province `province`.
pub fn feed_url(province: &str, city_code: &str) -> (r: String)
    ensures
        r@ == "https://dd.weather.gc.ca/citypage_weather/xml/"@ + province@ + "/"@ + city_code@ + "_e.xml"@,
{
    String::from_str("https://dd.weather.gc.ca/citypage_weather/xml/").concat(province).concat("/").concat(city_code).concat("_e.xml")
}


proof fn lemma_condition_table_1()
    ensures
        spec_condition_mapper("Sunny"@) == Conditions::Clear,
        spec_condition_mapper("Mainly Sunny"@) == Conditions::MainlyClear,
        spec_condition_mapper("Partly Cloudy"@) == Conditions::PartlyCloudy,
        spec_condition_mapper("Mostly Cloudy"@) == Conditions::MostlyCloudy,
        spec_condition_mapper("Light Rain Shower"@) == Conditions::LightRain,
        spec_condition_mapper("Light Rain Shower and Flurries"@) == Conditions::LightRain,
        spec_condition_mapper("Light Flurries"@) == Conditions::Flurries,
        spec_condition_mapper("Cloudy"@) == Conditions::Cloudy,
        spec_condition_mapper("Precipitation"@) == Conditions::Rain,
        spec_condition_mapper("Squalls"@) == Conditions::HeavySnow,
{
    reveal_strlit("Sunny");
    reveal_strlit("Mainly Sunny");
    reveal_strlit("Partly Cloudy");
    reveal_strlit("Mostly Cloudy");
    reveal_strlit("Light Rain Shower");
    reveal_strlit("Light Rain Shower and Flurries");
    reveal_strlit("Light Flurries");
    reveal_strlit("Cloudy");
    reveal_strlit("Precipitation");
    reveal_strlit("Squalls");
    assert("Mainly Sunny"@ != "Sunny"@) by { assert("Mainly Sunny"@.len() != "Sunny"@.len()); }
    assert("Partly Cloudy"@ != "Sunny"@) by { assert("Partly Cloudy"@.len() != "Sunny"@.len()); }
    assert("Partly Cloudy"@ != "Mainly Sunny"@) by { assert("Partly Cloudy"@.len() != "Mainly Sunny"@.len()); }
    assert("Mostly Cloudy"@ != "Sunny"@) by { assert("Mostly Cloudy"@.len() != "Sunny"@.len()); }
    assert("Mostly Cloudy"@ != "Mainly Sunny"@) by { assert("Mostly Cloudy"@.len() != "Mainly Sunny"@.len()); }
    assert("Mostly Cloudy"@ != "Partly Cloudy"@) by { assert("Mostly Cloudy"@[0] != "Partly Cloudy"@[0]); }
    assert("Light Rain Shower"@ != "Sunny"@) by { assert("Light Rain Shower"@.len() != "Sunny"@.len()); }
    assert("Light Rain Shower"@ != "Mainly Sunny"@) by { assert("Light Rain Shower"@.len() != "Mainly Sunny"@.len()); }
    assert("Light Rain Shower"@ != "Partly Cloudy"@) by { assert("Light Rain Shower"@.len() != "Partly Cloudy"@.len()); }
    assert("Light Rain Shower"@ != "Mostly Cloudy"@) by { assert("Light Rain Shower"@.len() != "Mostly Cloudy"@.len()); }
    assert("Light Rain Shower and Flurries"@ != "Sunny"@) by { assert("Light Rain Shower and Flurries"@.len() != "Sunny"@.len()); }
    assert("Light Rain Shower and Flurries"@ != "Mainly Sunny"@) by { assert("Light Rain Shower and Flurries"@.len() != "Mainly Sunny"@.len()); }
    assert("Light Rain Shower and Flurries"@ != "Partly Cloudy"@) by { assert("Light Rain Shower and Flurries"@.len() != "Partly Cloudy"@.len()); }
    assert("Light Rain Shower and Flurries"@ != "Mostly Cloudy"@) by { assert("Light Rain Shower and Flurries"@.len() != "Mostly Cloudy"@.len()); }
    assert("Light Rain Shower and Flurries"@ != "Light Rain Shower"@) by { assert("Light Rain Shower and Flurries"@.len() != "Light Rain Shower"@.len()); }
    assert("Light Flurries"@ != "Sunny"@) by { assert("Light Flurries"@.len() != "Sunny"@.len()); }
    assert("Light Flurries"@ != "Mainly Sunny"@) by { assert("Light Flurries"@.len() != "Mainly Sunny"@.len()); }
    assert("Light Flurries"@ != "Partly Cloudy"@) by { assert("Light Flurries"@.len() != "Partly Cloudy"@.len()); }
    assert("Light Flurries"@ != "Mostly Cloudy"@) by { assert("Light Flurries"@.len() != "Mostly Cloudy"@.len()); }
    assert("Light Flurries"@ != "Light Rain Shower"@) by { assert("Light Flurries"@.len() != "Light Rain Shower"@.len()); }
    assert("Light Flurries"@ != "Light Rain Shower and Flurries"@) by { assert("Light Flurries"@.len() != "Light Rain Shower and Flurries"@.len()); }
    assert("Cloudy"@ != "Sunny"@) by { assert("Cloudy"@.len() != "Sunny"@.len()); }
    assert("Cloudy"@ != "Mainly Sunny"@) by { assert("Cloudy"@.len() != "Mainly Sunny"@.len()); }
    assert("Cloudy"@ != "Partly Cloudy"@) by { assert("Cloudy"@.len() != "Partly Cloudy"@.len()); }
    assert("Cloudy"@ != "Mostly Cloudy"@) by { assert("Cloudy"@.len() != "Mostly Cloudy"@.len()); }
    assert("Cloudy"@ != "Light Rain Shower"@) by { assert("Cloudy"@.len() != "Light Rain Shower"@.len()); }
    assert("Cloudy"@ != "Light Rain Shower and Flurries"@) by { assert("Cloudy"@.len() != "Light Rain Shower and Flurries"@.len()); }
    assert("Cloudy"@ != "Light Flurries"@) by { assert("Cloudy"@.len() != "Light Flurries"@.len()); }
    assert("Precipitation"@ != "Sunny"@) by { assert("Precipitation"@.len() != "Sunny"@.len()); }
    assert("Precipitation"@ != "Mainly Sunny"@) by { assert("Precipitation"@.len() != "Mainly Sunny"@.len()); }
    assert("Precipitation"@ != "Partly Cloudy"@) by { assert("Precipitation"@[1] != "Partly Cloudy"@[1]); }
    assert("Precipitation"@ != "Mostly Cloudy"@) by { assert("Precipitation"@[0] != "Mostly Cloudy"@[0]); }
    assert("Precipitation"@ != "Light Rain Shower"@) by { assert("Precipitation"@.len() != "Light Rain Shower"@.len()); }
    assert("Precipitation"@ != "Light Rain Shower and Flurries"@) by { assert("Precipitation"@.len() != "Light Rain Shower and Flurries"@.len()); }
    assert("Precipitation"@ != "Light Flurries"@) by { assert("Precipitation"@.len() != "Light Flurries"@.len()); }
    assert("Precipitation"@ != "Cloudy"@) by { assert("Precipitation"@.len() != "Cloudy"@.len()); }
    assert("Squalls"@ != "Sunny"@) by { assert("Squalls"@.len() != "Sunny"@.len()); }
    assert("Squalls"@ != "Mainly Sunny"@) by { assert("Squalls"@.len() != "Mainly Sunny"@.len()); }
    assert("Squalls"@ != "Partly Cloudy"@) by { assert("Squalls"@.len() != "Partly Cloudy"@.len()); }
    assert("Squalls"@ != "Mostly Cloudy"@) by { assert("Squalls"@.len() != "Mostly Cloudy"@.len()); }
    assert("Squalls"@ != "Light Rain Shower"@) by { assert("Squalls"@.len() != "Light Rain Shower"@.len()); }
    assert("Squalls"@ != "Light Rain Shower and Flurries"@) by { assert("Squalls"@.len() != "Light Rain Shower and Flurries"@.len()); }
    assert("Squalls"@ != "Light Flurries"@) by { assert("Squalls"@.len() != "Light Flurries"@.len()); }
    assert("Squalls"@ != "Cloudy"@) by { assert("Squalls"@.len() != "Cloudy"@.len()); }
    assert("Squalls"@ != "Precipitation"@) by { assert("Squalls"@.len() != "Precipitation"@.len()); }
}

proof fn lemma_condition_table_2()
    ensures
        spec_condition_mapper("Light Precipitation"@) == Conditions::LightRain,
        spec_condition_mapper("Heavy Precipitation"@) == Conditions::HeavyRain,
        spec_condition_mapper("Rain Shower"@) == Conditions::Rain,
        spec_condition_mapper("Light Rain and Drizzle"@) == Conditions::LightRain,
        spec_condition_mapper("Light Rain"@) == Conditions::LightRain,
        spec_condition_mapper("Rain"@) == Conditions::Rain,
        spec_condition_mapper("Rain and Drizzle"@) == Conditions::Rain,
        spec_condition_mapper("Heavy Rain and Drizzle"@) == Conditions::HeavyRain,
        spec_condition_mapper("Heavy Rain Shower"@) == Conditions::HeavyRain,
        spec_condition_mapper("Heavy Rain"@) == Conditions::HeavyRain,
{
    reveal_strlit("Sunny");
    reveal_strlit("Mainly Sunny");
    reveal_strlit("Partly Cloudy");
    reveal_strlit("Mostly Cloudy");
    reveal_strlit("Light Rain Shower");
    reveal_strlit("Light Rain Shower and Flurries");
    reveal_strlit("Light Flurries");
    reveal_strlit("Cloudy");
    reveal_strlit("Precipitation");
    reveal_strlit("Squalls");
    reveal_strlit("Light Precipitation");
    reveal_strlit("Heavy Precipitation");
    reveal_strlit("Rain Shower");
    reveal_strlit("Light Rain and Drizzle");
    reveal_strlit("Light Rain");
    reveal_strlit("Rain");
    reveal_strlit("Rain and Drizzle");
    reveal_strlit("Heavy Rain and Drizzle");
    reveal_strlit("Heavy Rain Shower");
    reveal_strlit("Heavy Rain");
    assert("Light Precipitation"@ != "Sunny"@) by { assert("Light Precipitation"@.len() != "Sunny"@.len()); }
    assert("Light Precipitation"@ != "Mainly Sunny"@) by { assert("Light Precipitation"@.len() != "Mainly Sunny"@.len()); }
    assert("Light Precipitation"@ != "Partly Cloudy"@) by { assert("Light Precipitation"@.len() != "Partly Cloudy"@.len()); }
    assert("Light Precipitation"@ != "Mostly Cloudy"@) by { assert("Light Precipitation"@.len() != "Mostly Cloudy"@.len()); }
    assert("Light Precipitation"@ != "Light Rain Shower"@) by { assert("Light Precipitation"@.len() != "Light Rain Shower"@.len()); }
    assert("Light Precipitation"@ != "Light Rain Shower and Flurries"@) by { assert("Light Precipitation"@.len() != "Light Rain Shower and Flurries"@.len()); }
    assert("Light Precipitation"@ != "Light Flurries"@) by { assert("Light Precipitation"@.len() != "Light Flurries"@.len()); }
    assert("Light Precipitation"@ != "Cloudy"@) by { assert("Light Precipitation"@.len() != "Cloudy"@.len()); }
    assert("Light Precipitation"@ != "Precipitation"@) by { assert("Light Precipitation"@.len() != "Precipitation"@.len()); }
    assert("Light Precipitation"@ != "Squalls"@) by { assert("Light Precipitation"@.len() != "Squalls"@.len()); }
    assert("Heavy Precipitation"@ != "Sunny"@) by { assert("Heavy Precipitation"@.len() != "Sunny"@.len()); }
    assert("Heavy Precipitation"@ != "Mainly Sunny"@) by { assert("Heavy Precipitation"@.len() != "Mainly Sunny"@.len()); }
    assert("Heavy Precipitation"@ != "Partly Cloudy"@) by { assert("Heavy Precipitation"@.len() != "Partly Cloudy"@.len()); }
    assert("Heavy Precipitation"@ != "Mostly Cloudy"@) by { assert("Heavy Precipitation"@.len() != "Mostly Cloudy"@.len()); }
    assert("Heavy Precipitation"@ != "Light Rain Shower"@) by { assert("Heavy Precipitation"@.len() != "Light Rain Shower"@.len()); }
    assert("Heavy Precipitation"@ != "Light Rain Shower and Flurries"@) by { assert("Heavy Precipitation"@.len() != "Light Rain Shower and Flurries"@.len()); }
    assert("Heavy Precipitation"@ != "Light Flurries"@) by { assert("Heavy Precipitation"@.len() != "Light Flurries"@.len()); }
    assert("Heavy Precipitation"@ != "Cloudy"@) by { assert("Heavy Precipitation"@.len() != "Cloudy"@.len()); }
    assert("Heavy Precipitation"@ != "Precipitation"@) by { assert("Heavy Precipitation"@.len() != "Precipitation"@.len()); }
    assert("Heavy Precipitation"@ != "Squalls"@) by { assert("Heavy Precipitation"@.len() != "Squalls"@.len()); }
    assert("Heavy Precipitation"@ != "Light Precipitation"@) by { assert("Heavy Precipitation"@[0] != "Light Precipitation"@[0]); }
    assert("Rain Shower"@ != "Sunny"@) by { assert("Rain Shower"@.len() != "Sunny"@.len()); }
    assert("Rain Shower"@ != "Mainly Sunny"@) by { assert("Rain Shower"@.len() != "Mainly Sunny"@.len()); }
    assert("Rain Shower"@ != "Partly Cloudy"@) by { assert("Rain Shower"@.len() != "Partly Cloudy"@.len()); }
    assert("Rain Shower"@ != "Mostly Cloudy"@) by { assert("Rain Shower"@.len() != "Mostly Cloudy"@.len()); }
    assert("Rain Shower"@ != "Light Rain Shower"@) by { assert("Rain Shower"@.len() != "Light Rain Shower"@.len()); }
    assert("Rain Shower"@ != "Light Rain Shower and Flurries"@) by { assert("Rain Shower"@.len() != "Light Rain Shower and Flurries"@.len()); }
    assert("Rain Shower"@ != "Light Flurries"@) by { assert("Rain Shower"@.len() != "Light Flurries"@.len()); }
    assert("Rain Shower"@ != "Cloudy"@) by { assert("Rain Shower"@.len() != "Cloudy"@.len()); }
    assert("Rain Shower"@ != "Precipitation"@) by { assert("Rain Shower"@.len() != "Precipitation"@.len()); }
    assert("Rain Shower"@ != "Squalls"@) by { assert("Rain Shower"@.len() != "Squalls"@.len()); }
    assert("Rain Shower"@ != "Light Precipitation"@) by { assert("Rain Shower"@.len() != "Light Precipitation"@.len()); }
    assert("Rain Shower"@ != "Heavy Precipitation"@) by { assert("Rain Shower"@.len() != "Heavy Precipitation"@.len()); }
    assert("Light Rain and Drizzle"@ != "Sunny"@) by { assert("Light Rain and Drizzle"@.len() != "Sunny"@.len()); }
    assert("Light Rain and Drizzle"@ != "Mainly Sunny"@) by { assert("Light Rain and Drizzle"@.len() != "Mainly Sunny"@.len()); }
    assert("Light Rain and Drizzle"@ != "Partly Cloudy"@) by { assert("Light Rain and Drizzle"@.len() != "Partly Cloudy"@.len()); }
    assert("Light Rain and Drizzle"@ != "Mostly Cloudy"@) by { assert("Light Rain and Drizzle"@.len() != "Mostly Cloudy"@.len()); }
    assert("Light Rain and Drizzle"@ != "Light Rain Shower"@) by { assert("Light Rain and Drizzle"@.len() != "Light Rain Shower"@.len()); }
    assert("Light Rain and Drizzle"@ != "Light Rain Shower and Flurries"@) by { assert("Light Rain and Drizzle"@.len() != "Light Rain Shower and Flurries"@.len()); }
    assert("Light Rain and Drizzle"@ != "Light Flurries"@) by { assert("Light Rain and Drizzle"@.len() != "Light Flurries"@.len()); }
    assert("Light Rain and Drizzle"@ != "Cloudy"@) by { assert("Light Rain and Drizzle"@.len() != "Cloudy"@.len()); }
    assert("Light Rain and Drizzle"@ != "Precipitation"@) by { assert("Light Rain and Drizzle"@.len() != "Precipitation"@.len()); }
    assert("Light Rain and Drizzle"@ != "Squalls"@) by { assert("Light Rain and Drizzle"@.len() != "Squalls"@.len()); }
    assert("Light Rain and Drizzle"@ != "Light Precipitation"@) by { assert("Light Rain and Drizzle"@.len() != "Light Precipitation"@.len()); }
    assert("Light Rain and Drizzle"@ != "Heavy Precipitation"@) by { assert("Light Rain and Drizzle"@.len() != "Heavy Precipitation"@.len()); }
    assert("Light Rain and Drizzle"@ != "Rain Shower"@) by { assert("Light Rain and Drizzle"@.len() != "Rain Shower"@.len()); }
    assert("Light Rain"@ != "Sunny"@) by { assert("Light Rain"@.len() != "Sunny"@.len()); }
    assert("Light Rain"@ != "Mainly Sunny"@) by { assert("Light Rain"@.len() != "Mainly Sunny"@.len()); }
    assert("Light Rain"@ != "Partly Cloudy"@) by { assert("Light Rain"@.len() != "Partly Cloudy"@.len()); }
    assert("Light Rain"@ != "Mostly Cloudy"@) by { assert("Light Rain"@.len() != "Mostly Cloudy"@.len()); }
    assert("Light Rain"@ != "Light Rain Shower"@) by { assert("Light Rain"@.len() != "Light Rain Shower"@.len()); }
    assert("Light Rain"@ != "Light Rain Shower and Flurries"@) by { assert("Light Rain"@.len() != "Light Rain Shower and Flurries"@.len()); }
    assert("Light Rain"@ != "Light Flurries"@) by { assert("Light Rain"@.len() != "Light Flurries"@.len()); }
    assert("Light Rain"@ != "Cloudy"@) by { assert("Light Rain"@.len() != "Cloudy"@.len()); }
    assert("Light Rain"@ != "Precipitation"@) by { assert("Light Rain"@.len() != "Precipitation"@.len()); }
    assert("Light Rain"@ != "Squalls"@) by { assert("Light Rain"@.len() != "Squalls"@.len()); }
    assert("Light Rain"@ != "Light Precipitation"@) by { assert("Light Rain"@.len() != "Light Precipitation"@.len()); }
    assert("Light Rain"@ != "Heavy Precipitation"@) by { assert("Light Rain"@.len() != "Heavy Precipitation"@.len()); }
    assert("Light Rain"@ != "Rain Shower"@) by { assert("Light Rain"@.len() != "Rain Shower"@.len()); }
    assert("Light Rain"@ != "Light Rain and Drizzle"@) by { assert("Light Rain"@.len() != "Light Rain and Drizzle"@.len()); }
    assert("Rain"@ != "Sunny"@) by { assert("Rain"@.len() != "Sunny"@.len()); }
    assert("Rain"@ != "Mainly Sunny"@) by { assert("Rain"@.len() != "Mainly Sunny"@.len()); }
    assert("Rain"@ != "Partly Cloudy"@) by { assert("Rain"@.len() != "Partly Cloudy"@.len()); }
    assert("Rain"@ != "Mostly Cloudy"@) by { assert("Rain"@.len() != "Mostly Cloudy"@.len()); }
    assert("Rain"@ != "Light Rain Shower"@) by { assert("Rain"@.len() != "Light Rain Shower"@.len()); }
    assert("Rain"@ != "Light Rain Shower and Flurries"@) by { assert("Rain"@.len() != "Light Rain Shower and Flurries"@.len()); }
    assert("Rain"@ != "Light Flurries"@) by { assert("Rain"@.len() != "Light Flurries"@.len()); }
    assert("Rain"@ != "Cloudy"@) by { assert("Rain"@.len() != "Cloudy"@.len()); }
    assert("Rain"@ != "Precipitation"@) by { assert("Rain"@.len() != "Precipitation"@.len()); }
    assert("Rain"@ != "Squalls"@) by { assert("Rain"@.len() != "Squalls"@.len()); }
    assert("Rain"@ != "Light Precipitation"@) by { assert("Rain"@.len() != "Light Precipitation"@.len()); }
    assert("Rain"@ != "Heavy Precipitation"@) by { assert("Rain"@.len() != "Heavy Precipitation"@.len()); }
    assert("Rain"@ != "Rain Shower"@) by { assert("Rain"@.len() != "Rain Shower"@.len()); }
    assert("Rain"@ != "Light Rain and Drizzle"@) by { assert("Rain"@.len() != "Light Rain and Drizzle"@.len()); }
    assert("Rain"@ != "Light Rain"@) by { assert("Rain"@.len() != "Light Rain"@.len()); }
    assert("Rain and Drizzle"@ != "Sunny"@) by { assert("Rain and Drizzle"@.len() != "Sunny"@.len()); }
    assert("Rain and Drizzle"@ != "Mainly Sunny"@) by { assert("Rain and Drizzle"@.len() != "Mainly Sunny"@.len()); }
    assert("Rain and Drizzle"@ != "Partly Cloudy"@) by { assert("Rain and Drizzle"@.len() != "Partly Cloudy"@.len()); }
    assert("Rain and Drizzle"@ != "Mostly Cloudy"@) by { assert("Rain and Drizzle"@.len() != "Mostly Cloudy"@.len()); }
    assert("Rain and Drizzle"@ != "Light Rain Shower"@) by { assert("Rain and Drizzle"@.len() != "Light Rain Shower"@.len()); }
    assert("Rain and Drizzle"@ != "Light Rain Shower and Flurries"@) by { assert("Rain and Drizzle"@.len() != "Light Rain Shower and Flurries"@.len()); }
    assert("Rain and Drizzle"@ != "Light Flurries"@) by { assert("Rain and Drizzle"@.len() != "Light Flurries"@.len()); }
    assert("Rain and Drizzle"@ != "Cloudy"@) by { assert("Rain and Drizzle"@.len() != "Cloudy"@.len()); }
    assert("Rain and Drizzle"@ != "Precipitation"@) by { assert("Rain and Drizzle"@.len() != "Precipitation"@.len()); }
    assert("Rain and Drizzle"@ != "Squalls"@) by { assert("Rain and Drizzle"@.len() != "Squalls"@.len()); }
    assert("Rain and Drizzle"@ != "Light Precipitation"@) by { assert("Rain and Drizzle"@.len() != "Light Precipitation"@.len()); }
    assert("Rain and Drizzle"@ != "Heavy Precipitation"@) by { assert("Rain and Drizzle"@.len() != "Heavy Precipitation"@.len()); }
    assert("Rain and Drizzle"@ != "Rain Shower"@) by { assert("Rain and Drizzle"@.len() != "Rain Shower"@.len()); }
    assert("Rain and Drizzle"@ != "Light Rain and Drizzle"@) by { assert("Rain and Drizzle"@.len() != "Light Rain and Drizzle"@.len()); }
    assert("Rain and Drizzle"@ != "Light Rain"@) by { assert("Rain and Drizzle"@.len() != "Light Rain"@.len()); }
    assert("Rain and Drizzle"@ != "Rain"@) by { assert("Rain and Drizzle"@.len() != "Rain"@.len()); }
    assert("Heavy Rain and Drizzle"@ != "Sunny"@) by { assert("Heavy Rain and Drizzle"@.len() != "Sunny"@.len()); }
    assert("Heavy Rain and Drizzle"@ != "Mainly Sunny"@) by { assert("Heavy Rain and Drizzle"@.len() != "Mainly Sunny"@.len()); }
    assert("Heavy Rain and Drizzle"@ != "Partly Cloudy"@) by { assert("Heavy Rain and Drizzle"@.len() != "Partly Cloudy"@.len()); }
    assert("Heavy Rain and Drizzle"@ != "Mostly Cloudy"@) by { assert("Heavy Rain and Drizzle"@.len() != "Mostly Cloudy"@.len()); }
    assert("Heavy Rain and Drizzle"@ != "Light Rain Shower"@) by { assert("Heavy Rain and Drizzle"@.len() != "Light Rain Shower"@.len()); }
    assert("Heavy Rain and Drizzle"@ != "Light Rain Shower and Flurries"@) by { assert("Heavy Rain and Drizzle"@.len() != "Light Rain Shower and Flurries"@.len()); }
    assert("Heavy Rain and Drizzle"@ != "Light Flurries"@) by { assert("Heavy Rain and Drizzle"@.len() != "Light Flurries"@.len()); }
    assert("Heavy Rain and Drizzle"@ != "Cloudy"@) by { assert("Heavy Rain and Drizzle"@.len() != "Cloudy"@.len()); }
    assert("Heavy Rain and Drizzle"@ != "Precipitation"@) by { assert("Heavy Rain and Drizzle"@.len() != "Precipitation"@.len()); }
    assert("Heavy Rain and Drizzle"@ != "Squalls"@) by { assert("Heavy Rain and Drizzle"@.len() != "Squalls"@.len()); }
    assert("Heavy Rain and Drizzle"@ != "Light Precipitation"@) by { assert("Heavy Rain and Drizzle"@.len() != "Light Precipitation"@.len()); }
    assert("Heavy Rain and Drizzle"@ != "Heavy Precipitation"@) by { assert("Heavy Rain and Drizzle"@.len() != "Heavy Precipitation"@.len()); }
    assert("Heavy Rain and Drizzle"@ != "Rain Shower"@) by { assert("Heavy Rain and Drizzle"@.len() != "Rain Shower"@.len()); }
    assert("Heavy Rain and Drizzle"@ != "Light Rain and Drizzle"@) by { assert("Heavy Rain and Drizzle"@[0] != "Light Rain and Drizzle"@[0]); }
    assert("Heavy Rain and Drizzle"@ != "Light Rain"@) by { assert("Heavy Rain and Drizzle"@.len() != "Light Rain"@.len()); }
    assert("Heavy Rain and Drizzle"@ != "Rain"@) by { assert("Heavy Rain and Drizzle"@.len() != "Rain"@.len()); }
    assert("Heavy Rain and Drizzle"@ != "Rain and Drizzle"@) by { assert("Heavy Rain and Drizzle"@.len() != "Rain and Drizzle"@.len()); }
    assert("Heavy Rain Shower"@ != "Sunny"@) by { assert("Heavy Rain Shower"@.len() != "Sunny"@.len()); }
    assert("Heavy Rain Shower"@ != "Mainly Sunny"@) by { assert("Heavy Rain Shower"@.len() != "Mainly Sunny"@.len()); }
    assert("Heavy Rain Shower"@ != "Partly Cloudy"@) by { assert("Heavy Rain Shower"@.len() != "Partly Cloudy"@.len()); }
    assert("Heavy Rain Shower"@ != "Mostly Cloudy"@) by { assert("Heavy Rain Shower"@.len() != "Mostly Cloudy"@.len()); }
    assert("Heavy Rain Shower"@ != "Light Rain Shower"@) by { assert("Heavy Rain Shower"@[0] != "Light Rain Shower"@[0]); }
    assert("Heavy Rain Shower"@ != "Light Rain Shower and Flurries"@) by { assert("Heavy Rain Shower"@.len() != "Light Rain Shower and Flurries"@.len()); }
    assert("Heavy Rain Shower"@ != "Light Flurries"@) by { assert("Heavy Rain Shower"@.len() != "Light Flurries"@.len()); }
    assert("Heavy Rain Shower"@ != "Cloudy"@) by { assert("Heavy Rain Shower"@.len() != "Cloudy"@.len()); }
    assert("Heavy Rain Shower"@ != "Precipitation"@) by { assert("Heavy Rain Shower"@.len() != "Precipitation"@.len()); }
    assert("Heavy Rain Shower"@ != "Squalls"@) by { assert("Heavy Rain Shower"@.len() != "Squalls"@.len()); }
    assert("Heavy Rain Shower"@ != "Light Precipitation"@) by { assert("Heavy Rain Shower"@.len() != "Light Precipitation"@.len()); }
    assert("Heavy Rain Shower"@ != "Heavy Precipitation"@) by { assert("Heavy Rain Shower"@.len() != "Heavy Precipitation"@.len()); }
    assert("Heavy Rain Shower"@ != "Rain Shower"@) by { assert("Heavy Rain Shower"@.len() != "Rain Shower"@.len()); }
    assert("Heavy Rain Shower"@ != "Light Rain and Drizzle"@) by { assert("Heavy Rain Shower"@.len() != "Light Rain and Drizzle"@.len()); }
    assert("Heavy Rain Shower"@ != "Light Rain"@) by { assert("Heavy Rain Shower"@.len() != "Light Rain"@.len()); }
    assert("Heavy Rain Shower"@ != "Rain"@) by { assert("Heavy Rain Shower"@.len() != "Rain"@.len()); }
    assert("Heavy Rain Shower"@ != "Rain and Drizzle"@) by { assert("Heavy Rain Shower"@.len() != "Rain and Drizzle"@.len()); }
    assert("Heavy Rain Shower"@ != "Heavy Rain and Drizzle"@) by { assert("Heavy Rain Shower"@.len() != "Heavy Rain and Drizzle"@.len()); }
    assert("Heavy Rain"@ != "Sunny"@) by { assert("Heavy Rain"@.len() != "Sunny"@.len()); }
    assert("Heavy Rain"@ != "Mainly Sunny"@) by { assert("Heavy Rain"@.len() != "Mainly Sunny"@.len()); }
    assert("Heavy Rain"@ != "Partly Cloudy"@) by { assert("Heavy Rain"@.len() != "Partly Cloudy"@.len()); }
    assert("Heavy Rain"@ != "Mostly Cloudy"@) by { assert("Heavy Rain"@.len() != "Mostly Cloudy"@.len()); }
    assert("Heavy Rain"@ != "Light Rain Shower"@) by { assert("Heavy Rain"@.len() != "Light Rain Shower"@.len()); }
    assert("Heavy Rain"@ != "Light Rain Shower and Flurries"@) by { assert("Heavy Rain"@.len() != "Light Rain Shower and Flurries"@.len()); }
    assert("Heavy Rain"@ != "Light Flurries"@) by { assert("Heavy Rain"@.len() != "Light Flurries"@.len()); }
    assert("Heavy Rain"@ != "Cloudy"@) by { assert("Heavy Rain"@.len() != "Cloudy"@.len()); }
    assert("Heavy Rain"@ != "Precipitation"@) by { assert("Heavy Rain"@.len() != "Precipitation"@.len()); }
    assert("Heavy Rain"@ != "Squalls"@) by { assert("Heavy Rain"@.len() != "Squalls"@.len()); }
    assert("Heavy Rain"@ != "Light Precipitation"@) by { assert("Heavy Rain"@.len() != "Light Precipitation"@.len()); }
    assert("Heavy Rain"@ != "Heavy Precipitation"@) by { assert("Heavy Rain"@.len() != "Heavy Precipitation"@.len()); }
    assert("Heavy Rain"@ != "Rain Shower"@) by { assert("Heavy Rain"@.len() != "Rain Shower"@.len()); }
    assert("Heavy Rain"@ != "Light Rain and Drizzle"@) by { assert("Heavy Rain"@.len() != "Light Rain and Drizzle"@.len()); }
    assert("Heavy Rain"@ != "Light Rain"@) by { assert("Heavy Rain"@[0] != "Light Rain"@[0]); }
    assert("Heavy Rain"@ != "Rain"@) by { assert("Heavy Rain"@.len() != "Rain"@.len()); }
    assert("Heavy Rain"@ != "Rain and Drizzle"@) by { assert("Heavy Rain"@.len() != "Rain and Drizzle"@.len()); }
    assert("Heavy Rain"@ != "Heavy Rain and Drizzle"@) by { assert("Heavy Rain"@.len() != "Heavy Rain and Drizzle"@.len()); }
    assert("Heavy Rain"@ != "Heavy Rain Shower"@) by { assert("Heavy Rain"@.len() != "Heavy Rain Shower"@.len()); }
}

proof fn lemma_condition_table_3()
    ensures
        spec_condition_mapper("Light Freezing Drizzle"@) == Conditions::LightFreezingRain,
        spec_condition_mapper("Light Freezing Rain"@) == Conditions::LightFreezingRain,
        spec_condition_mapper("Heavy Freezing Drizzle"@) == Conditions::HeavyFreezingRain,
        spec_condition_mapper("Heavy Freezing Rain"@) == Conditions::HeavyFreezingRain,
        spec_condition_mapper("Freezing Drizzle"@) == Conditions::LightFreezingRain,
        spec_condition_mapper("Freezing Rain"@) == Conditions::FreezingRain,
        spec_condition_mapper("Rain and Flurries"@) == Conditions::Rain,
        spec_condition_mapper("Rain and Snow"@) == Conditions::Snow,
        spec_condition_mapper("Heavy Rain Shower and Flurries"@) == Conditions::HeavyRain,
        spec_condition_mapper("Heavy Rain and Snow"@) == Conditions::HeavyRain,
{
    reveal_strlit("Sunny");
    reveal_strlit("Mainly Sunny");
    reveal_strlit("Partly Cloudy");
    reveal_strlit("Mostly Cloudy");
    reveal_strlit("Light Rain Shower");
    reveal_strlit("Light Rain Shower and Flurries");
    reveal_strlit("Light Flurries");
    reveal_strlit("Cloudy");
    reveal_strlit("Precipitation");
    reveal_strlit("Squalls");
    reveal_strlit("Light Precipitation");
    reveal_strlit("Heavy Precipitation");
    reveal_strlit("Rain Shower");
    reveal_strlit("Light Rain and Drizzle");
    reveal_strlit("Light Rain");
    reveal_strlit("Rain");
    reveal_strlit("Rain and Drizzle");
    reveal_strlit("Heavy Rain and Drizzle");
    reveal_strlit("Heavy Rain Shower");
    reveal_strlit("Heavy Rain");
    reveal_strlit("Light Freezing Drizzle");
    reveal_strlit("Light Freezing Rain");
    reveal_strlit("Heavy Freezing Drizzle");
    reveal_strlit("Heavy Freezing Rain");
    reveal_strlit("Freezing Drizzle");
    reveal_strlit("Freezing Rain");
    reveal_strlit("Rain and Flurries");
    reveal_strlit("Rain and Snow");
    reveal_strlit("Heavy Rain Shower and Flurries");
    reveal_strlit("Heavy Rain and Snow");
    assert("Light Freezing Drizzle"@ != "Sunny"@) by { assert("Light Freezing Drizzle"@.len() != "Sunny"@.len()); }
    assert("Light Freezing Drizzle"@ != "Mainly Sunny"@) by { assert("Light Freezing Drizzle"@.len() != "Mainly Sunny"@.len()); }
    assert("Light Freezing Drizzle"@ != "Partly Cloudy"@) by { assert("Light Freezing Drizzle"@.len() != "Partly Cloudy"@.len()); }
    assert("Light Freezing Drizzle"@ != "Mostly Cloudy"@) by { assert("Light Freezing Drizzle"@.len() != "Mostly Cloudy"@.len()); }
    assert("Light Freezing Drizzle"@ != "Light Rain Shower"@) by { assert("Light Freezing Drizzle"@.len() != "Light Rain Shower"@.len()); }
    assert("Light Freezing Drizzle"@ != "Light Rain Shower and Flurries"@) by { assert("Light Freezing Drizzle"@.len() != "Light Rain Shower and Flurries"@.len()); }
    assert("Light Freezing Drizzle"@ != "Light Flurries"@) by { assert("Light Freezing Drizzle"@.len() != "Light Flurries"@.len()); }
    assert("Light Freezing Drizzle"@ != "Cloudy"@) by { assert("Light Freezing Drizzle"@.len() != "Cloudy"@.len()); }
    assert("Light Freezing Drizzle"@ != "Precipitation"@) by { assert("Light Freezing Drizzle"@.len() != "Precipitation"@.len()); }
    assert("Light Freezing Drizzle"@ != "Squalls"@) by { assert("Light Freezing Drizzle"@.len() != "Squalls"@.len()); }
    assert("Light Freezing Drizzle"@ != "Light Precipitation"@) by { assert("Light Freezing Drizzle"@.len() != "Light Precipitation"@.len()); }
    assert("Light Freezing Drizzle"@ != "Heavy Precipitation"@) by { assert("Light Freezing Drizzle"@.len() != "Heavy Precipitation"@.len()); }
    assert("Light Freezing Drizzle"@ != "Rain Shower"@) by { assert("Light Freezing Drizzle"@.len() != "Rain Shower"@.len()); }
    assert("Light Freezing Drizzle"@ != "Light Rain and Drizzle"@) by { assert("Light Freezing Drizzle"@[6] != "Light Rain and Drizzle"@[6]); }
    assert("Light Freezing Drizzle"@ != "Light Rain"@) by { assert("Light Freezing Drizzle"@.len() != "Light Rain"@.len()); }
    assert("Light Freezing Drizzle"@ != "Rain"@) by { assert("Light Freezing Drizzle"@.len() != "Rain"@.len()); }
    assert("Light Freezing Drizzle"@ != "Rain and Drizzle"@) by { assert("Light Freezing Drizzle"@.len() != "Rain and Drizzle"@.len()); }
    assert("Light Freezing Drizzle"@ != "Heavy Rain and Drizzle"@) by { assert("Light Freezing Drizzle"@[0] != "Heavy Rain and Drizzle"@[0]); }
    assert("Light Freezing Drizzle"@ != "Heavy Rain Shower"@) by { assert("Light Freezing Drizzle"@.len() != "Heavy Rain Shower"@.len()); }
    assert("Light Freezing Drizzle"@ != "Heavy Rain"@) by { assert("Light Freezing Drizzle"@.len() != "Heavy Rain"@.len()); }
    assert("Light Freezing Rain"@ != "Sunny"@) by { assert("Light Freezing Rain"@.len() != "Sunny"@.len()); }
    assert("Light Freezing Rain"@ != "Mainly Sunny"@) by { assert("Light Freezing Rain"@.len() != "Mainly Sunny"@.len()); }
    assert("Light Freezing Rain"@ != "Partly Cloudy"@) by { assert("Light Freezing Rain"@.len() != "Partly Cloudy"@.len()); }
    assert("Light Freezing Rain"@ != "Mostly Cloudy"@) by { assert("Light Freezing Rain"@.len() != "Mostly Cloudy"@.len()); }
    assert("Light Freezing Rain"@ != "Light Rain Shower"@) by { assert("Light Freezing Rain"@.len() != "Light Rain Shower"@.len()); }
    assert("Light Freezing Rain"@ != "Light Rain Shower and Flurries"@) by { assert("Light Freezing Rain"@.len() != "Light Rain Shower and Flurries"@.len()); }
    assert("Light Freezing Rain"@ != "Light Flurries"@) by { assert("Light Freezing Rain"@.len() != "Light Flurries"@.len()); }
    assert("Light Freezing Rain"@ != "Cloudy"@) by { assert("Light Freezing Rain"@.len() != "Cloudy"@.len()); }
    assert("Light Freezing Rain"@ != "Precipitation"@) by { assert("Light Freezing Rain"@.len() != "Precipitation"@.len()); }
    assert("Light Freezing Rain"@ != "Squalls"@) by { assert("Light Freezing Rain"@.len() != "Squalls"@.len()); }
    assert("Light Freezing Rain"@ != "Light Precipitation"@) by { assert("Light Freezing Rain"@[6] != "Light Precipitation"@[6]); }
    assert("Light Freezing Rain"@ != "Heavy Precipitation"@) by { assert("Light Freezing Rain"@[0] != "Heavy Precipitation"@[0]); }
    assert("Light Freezing Rain"@ != "Rain Shower"@) by { assert("Light Freezing Rain"@.len() != "Rain Shower"@.len()); }
    assert("Light Freezing Rain"@ != "Light Rain and Drizzle"@) by { assert("Light Freezing Rain"@.len() != "Light Rain and Drizzle"@.len()); }
    assert("Light Freezing Rain"@ != "Light Rain"@) by { assert("Light Freezing Rain"@.len() != "Light Rain"@.len()); }
    assert("Light Freezing Rain"@ != "Rain"@) by { assert("Light Freezing Rain"@.len() != "Rain"@.len()); }
    assert("Light Freezing Rain"@ != "Rain and Drizzle"@) by { assert("Light Freezing Rain"@.len() != "Rain and Drizzle"@.len()); }
    assert("Light Freezing Rain"@ != "Heavy Rain and Drizzle"@) by { assert("Light Freezing Rain"@.len() != "Heavy Rain and Drizzle"@.len()); }
    assert("Light Freezing Rain"@ != "Heavy Rain Shower"@) by { assert("Light Freezing Rain"@.len() != "Heavy Rain Shower"@.len()); }
    assert("Light Freezing Rain"@ != "Heavy Rain"@) by { assert("Light Freezing Rain"@.len() != "Heavy Rain"@.len()); }
    assert("Light Freezing Rain"@ != "Light Freezing Drizzle"@) by { assert("Light Freezing Rain"@.len() != "Light Freezing Drizzle"@.len()); }
    assert("Heavy Freezing Drizzle"@ != "Sunny"@) by { assert("Heavy Freezing Drizzle"@.len() != "Sunny"@.len()); }
    assert("Heavy Freezing Drizzle"@ != "Mainly Sunny"@) by { assert("Heavy Freezing Drizzle"@.len() != "Mainly Sunny"@.len()); }
    assert("Heavy Freezing Drizzle"@ != "Partly Cloudy"@) by { assert("Heavy Freezing Drizzle"@.len() != "Partly Cloudy"@.len()); }
    assert("Heavy Freezing Drizzle"@ != "Mostly Cloudy"@) by { assert("Heavy Freezing Drizzle"@.len() != "Mostly Cloudy"@.len()); }
    assert("Heavy Freezing Drizzle"@ != "Light Rain Shower"@) by { assert("Heavy Freezing Drizzle"@.len() != "Light Rain Shower"@.len()); }
    assert("Heavy Freezing Drizzle"@ != "Light Rain Shower and Flurries"@) by { assert("Heavy Freezing Drizzle"@.len() != "Light Rain Shower and Flurries"@.len()); }
    assert("Heavy Freezing Drizzle"@ != "Light Flurries"@) by { assert("Heavy Freezing Drizzle"@.len() != "Light Flurries"@.len()); }
    assert("Heavy Freezing Drizzle"@ != "Cloudy"@) by { assert("Heavy Freezing Drizzle"@.len() != "Cloudy"@.len()); }
    assert("Heavy Freezing Drizzle"@ != "Precipitation"@) by { assert("Heavy Freezing Drizzle"@.len() != "Precipitation"@.len()); }
    assert("Heavy Freezing Drizzle"@ != "Squalls"@) by { assert("Heavy Freezing Drizzle"@.len() != "Squalls"@.len()); }
    assert("Heavy Freezing Drizzle"@ != "Light Precipitation"@) by { assert("Heavy Freezing Drizzle"@.len() != "Light Precipitation"@.len()); }
    assert("Heavy Freezing Drizzle"@ != "Heavy Precipitation"@) by { assert("Heavy Freezing Drizzle"@.len() != "Heavy Precipitation"@.len()); }
    assert("Heavy Freezing Drizzle"@ != "Rain Shower"@) by { assert("Heavy Freezing Drizzle"@.len() != "Rain Shower"@.len()); }
    assert("Heavy Freezing Drizzle"@ != "Light Rain and Drizzle"@) by { assert("Heavy Freezing Drizzle"@[0] != "Light Rain and Drizzle"@[0]); }
    assert("Heavy Freezing Drizzle"@ != "Light Rain"@) by { assert("Heavy Freezing Drizzle"@.len() != "Light Rain"@.len()); }
    assert("Heavy Freezing Drizzle"@ != "Rain"@) by { assert("Heavy Freezing Drizzle"@.len() != "Rain"@.len()); }
    assert("Heavy Freezing Drizzle"@ != "Rain and Drizzle"@) by { assert("Heavy Freezing Drizzle"@.len() != "Rain and Drizzle"@.len()); }
    assert("Heavy Freezing Drizzle"@ != "Heavy Rain and Drizzle"@) by { assert("Heavy Freezing Drizzle"@[6] != "Heavy Rain and Drizzle"@[6]); }
    assert("Heavy Freezing Drizzle"@ != "Heavy Rain Shower"@) by { assert("Heavy Freezing Drizzle"@.len() != "Heavy Rain Shower"@.len()); }
    assert("Heavy Freezing Drizzle"@ != "Heavy Rain"@) by { assert("Heavy Freezing Drizzle"@.len() != "Heavy Rain"@.len()); }
    assert("Heavy Freezing Drizzle"@ != "Light Freezing Drizzle"@) by { assert("Heavy Freezing Drizzle"@[0] != "Light Freezing Drizzle"@[0]); }
    assert("Heavy Freezing Drizzle"@ != "Light Freezing Rain"@) by { assert("Heavy Freezing Drizzle"@.len() != "Light Freezing Rain"@.len()); }
    assert("Heavy Freezing Rain"@ != "Sunny"@) by { assert("Heavy Freezing Rain"@.len() != "Sunny"@.len()); }
    assert("Heavy Freezing Rain"@ != "Mainly Sunny"@) by { assert("Heavy Freezing Rain"@.len() != "Mainly Sunny"@.len()); }
    assert("Heavy Freezing Rain"@ != "Partly Cloudy"@) by { assert("Heavy Freezing Rain"@.len() != "Partly Cloudy"@.len()); }
    assert("Heavy Freezing Rain"@ != "Mostly Cloudy"@) by { assert("Heavy Freezing Rain"@.len() != "Mostly Cloudy"@.len()); }
    assert("Heavy Freezing Rain"@ != "Light Rain Shower"@) by { assert("Heavy Freezing Rain"@.len() != "Light Rain Shower"@.len()); }
    assert("Heavy Freezing Rain"@ != "Light Rain Shower and Flurries"@) by { assert("Heavy Freezing Rain"@.len() != "Light Rain Shower and Flurries"@.len()); }
    assert("Heavy Freezing Rain"@ != "Light Flurries"@) by { assert("Heavy Freezing Rain"@.len() != "Light Flurries"@.len()); }
    assert("Heavy Freezing Rain"@ != "Cloudy"@) by { assert("Heavy Freezing Rain"@.len() != "Cloudy"@.len()); }
    assert("Heavy Freezing Rain"@ != "Precipitation"@) by { assert("Heavy Freezing Rain"@.len() != "Precipitation"@.len()); }
    assert("Heavy Freezing Rain"@ != "Squalls"@) by { assert("Heavy Freezing Rain"@.len() != "Squalls"@.len()); }
    assert("Heavy Freezing Rain"@ != "Light Precipitation"@) by { assert("Heavy Freezing Rain"@[0] != "Light Precipitation"@[0]); }
    assert("Heavy Freezing Rain"@ != "Heavy Precipitation"@) by { assert("Heavy Freezing Rain"@[6] != "Heavy Precipitation"@[6]); }
    assert("Heavy Freezing Rain"@ != "Rain Shower"@) by { assert("Heavy Freezing Rain"@.len() != "Rain Shower"@.len()); }
    assert("Heavy Freezing Rain"@ != "Light Rain and Drizzle"@) by { assert("Heavy Freezing Rain"@.len() != "Light Rain and Drizzle"@.len()); }
    assert("Heavy Freezing Rain"@ != "Light Rain"@) by { assert("Heavy Freezing Rain"@.len() != "Light Rain"@.len()); }
    assert("Heavy Freezing Rain"@ != "Rain"@) by { assert("Heavy Freezing Rain"@.len() != "Rain"@.len()); }
    assert("Heavy Freezing Rain"@ != "Rain and Drizzle"@) by { assert("Heavy Freezing Rain"@.len() != "Rain and Drizzle"@.len()); }
    assert("Heavy Freezing Rain"@ != "Heavy Rain and Drizzle"@) by { assert("Heavy Freezing Rain"@.len() != "Heavy Rain and Drizzle"@.len()); }
    assert("Heavy Freezing Rain"@ != "Heavy Rain Shower"@) by { assert("Heavy Freezing Rain"@.len() != "Heavy Rain Shower"@.len()); }
    assert("Heavy Freezing Rain"@ != "Heavy Rain"@) by { assert("Heavy Freezing Rain"@.len() != "Heavy Rain"@.len()); }
    assert("Heavy Freezing Rain"@ != "Light Freezing Drizzle"@) by { assert("Heavy Freezing Rain"@.len() != "Light Freezing Drizzle"@.len()); }
    assert("Heavy Freezing Rain"@ != "Light Freezing Rain"@) by { assert("Heavy Freezing Rain"@[0] != "Light Freezing Rain"@[0]); }
    assert("Heavy Freezing Rain"@ != "Heavy Freezing Drizzle"@) by { assert("Heavy Freezing Rain"@.len() != "Heavy Freezing Drizzle"@.len()); }
    assert("Freezing Drizzle"@ != "Sunny"@) by { assert("Freezing Drizzle"@.len() != "Sunny"@.len()); }
    assert("Freezing Drizzle"@ != "Mainly Sunny"@) by { assert("Freezing Drizzle"@.len() != "Mainly Sunny"@.len()); }
    assert("Freezing Drizzle"@ != "Partly Cloudy"@) by { assert("Freezing Drizzle"@.len() != "Partly Cloudy"@.len()); }
    assert("Freezing Drizzle"@ != "Mostly Cloudy"@) by { assert("Freezing Drizzle"@.len() != "Mostly Cloudy"@.len()); }
    assert("Freezing Drizzle"@ != "Light Rain Shower"@) by { assert("Freezing Drizzle"@.len() != "Light Rain Shower"@.len()); }
    assert("Freezing Drizzle"@ != "Light Rain Shower and Flurries"@) by { assert("Freezing Drizzle"@.len() != "Light Rain Shower and Flurries"@.len()); }
    assert("Freezing Drizzle"@ != "Light Flurries"@) by { assert("Freezing Drizzle"@.len() != "Light Flurries"@.len()); }
    assert("Freezing Drizzle"@ != "Cloudy"@) by { assert("Freezing Drizzle"@.len() != "Cloudy"@.len()); }
    assert("Freezing Drizzle"@ != "Precipitation"@) by { assert("Freezing Drizzle"@.len() != "Precipitation"@.len()); }
    assert("Freezing Drizzle"@ != "Squalls"@) by { assert("Freezing Drizzle"@.len() != "Squalls"@.len()); }
    assert("Freezing Drizzle"@ != "Light Precipitation"@) by { assert("Freezing Drizzle"@.len() != "Light Precipitation"@.len()); }
    assert("Freezing Drizzle"@ != "Heavy Precipitation"@) by { assert("Freezing Drizzle"@.len() != "Heavy Precipitation"@.len()); }
    assert("Freezing Drizzle"@ != "Rain Shower"@) by { assert("Freezing Drizzle"@.len() != "Rain Shower"@.len()); }
    assert("Freezing Drizzle"@ != "Light Rain and Drizzle"@) by { assert("Freezing Drizzle"@.len() != "Light Rain and Drizzle"@.len()); }
    assert("Freezing Drizzle"@ != "Light Rain"@) by { assert("Freezing Drizzle"@.len() != "Light Rain"@.len()); }
    assert("Freezing Drizzle"@ != "Rain"@) by { assert("Freezing Drizzle"@.len() != "Rain"@.len()); }
    assert("Freezing Drizzle"@ != "Rain and Drizzle"@) by { assert("Freezing Drizzle"@[0] != "Rain and Drizzle"@[0]); }
    assert("Freezing Drizzle"@ != "Heavy Rain and Drizzle"@) by { assert("Freezing Drizzle"@.len() != "Heavy Rain and Drizzle"@.len()); }
    assert("Freezing Drizzle"@ != "Heavy Rain Shower"@) by { assert("Freezing Drizzle"@.len() != "Heavy Rain Shower"@.len()); }
    assert("Freezing Drizzle"@ != "Heavy Rain"@) by { assert("Freezing Drizzle"@.len() != "Heavy Rain"@.len()); }
    assert("Freezing Drizzle"@ != "Light Freezing Drizzle"@) by { assert("Freezing Drizzle"@.len() != "Light Freezing Drizzle"@.len()); }
    assert("Freezing Drizzle"@ != "Light Freezing Rain"@) by { assert("Freezing Drizzle"@.len() != "Light Freezing Rain"@.len()); }
    assert("Freezing Drizzle"@ != "Heavy Freezing Drizzle"@) by { assert("Freezing Drizzle"@.len() != "Heavy Freezing Drizzle"@.len()); }
    assert("Freezing Drizzle"@ != "Heavy Freezing Rain"@) by { assert("Freezing Drizzle"@.len() != "Heavy Freezing Rain"@.len()); }
    assert("Freezing Rain"@ != "Sunny"@) by { assert("Freezing Rain"@.len() != "Sunny"@.len()); }
    assert("Freezing Rain"@ != "Mainly Sunny"@) by { assert("Freezing Rain"@.len() != "Mainly Sunny"@.len()); }
    assert("Freezing Rain"@ != "Partly Cloudy"@) by { assert("Freezing Rain"@[0] != "Partly Cloudy"@[0]); }
    assert("Freezing Rain"@ != "Mostly Cloudy"@) by { assert("Freezing Rain"@[0] != "Mostly Cloudy"@[0]); }
    assert("Freezing Rain"@ != "Light Rain Shower"@) by { assert("Freezing Rain"@.len() != "Light Rain Shower"@.len()); }
    assert("Freezing Rain"@ != "Light Rain Shower and Flurries"@) by { assert("Freezing Rain"@.len() != "Light Rain Shower and Flurries"@.len()); }
    assert("Freezing Rain"@ != "Light Flurries"@) by { assert("Freezing Rain"@.len() != "Light Flurries"@.len()); }
    assert("Freezing Rain"@ != "Cloudy"@) by { assert("Freezing Rain"@.len() != "Cloudy"@.len()); }
    assert("Freezing Rain"@ != "Precipitation"@) by { assert("Freezing Rain"@[0] != "Precipitation"@[0]); }
    assert("Freezing Rain"@ != "Squalls"@) by { assert("Freezing Rain"@.len() != "Squalls"@.len()); }
    assert("Freezing Rain"@ != "Light Precipitation"@) by { assert("Freezing Rain"@.len() != "Light Precipitation"@.len()); }
    assert("Freezing Rain"@ != "Heavy Precipitation"@) by { assert("Freezing Rain"@.len() != "Heavy Precipitation"@.len()); }
    assert("Freezing Rain"@ != "Rain Shower"@) by { assert("Freezing Rain"@.len() != "Rain Shower"@.len()); }
    assert("Freezing Rain"@ != "Light Rain and Drizzle"@) by { assert("Freezing Rain"@.len() != "Light Rain and Drizzle"@.len()); }
    assert("Freezing Rain"@ != "Light Rain"@) by { assert("Freezing Rain"@.len() != "Light Rain"@.len()); }
    assert("Freezing Rain"@ != "Rain"@) by { assert("Freezing Rain"@.len() != "Rain"@.len()); }
    assert("Freezing Rain"@ != "Rain and Drizzle"@) by { assert("Freezing Rain"@.len() != "Rain and Drizzle"@.len()); }
    assert("Freezing Rain"@ != "Heavy Rain and Drizzle"@) by { assert("Freezing Rain"@.len() != "Heavy Rain and Drizzle"@.len()); }
    assert("Freezing Rain"@ != "Heavy Rain Shower"@) by { assert("Freezing Rain"@.len() != "Heavy Rain Shower"@.len()); }
    assert("Freezing Rain"@ != "Heavy Rain"@) by { assert("Freezing Rain"@.len() != "Heavy Rain"@.len()); }
    assert("Freezing Rain"@ != "Light Freezing Drizzle"@) by { assert("Freezing Rain"@.len() != "Light Freezing Drizzle"@.len()); }
    assert("Freezing Rain"@ != "Light Freezing Rain"@) by { assert("Freezing Rain"@.len() != "Light Freezing Rain"@.len()); }
    assert("Freezing Rain"@ != "Heavy Freezing Drizzle"@) by { assert("Freezing Rain"@.len() != "Heavy Freezing Drizzle"@.len()); }
    assert("Freezing Rain"@ != "Heavy Freezing Rain"@) by { assert("Freezing Rain"@.len() != "Heavy Freezing Rain"@.len()); }
    assert("Freezing Rain"@ != "Freezing Drizzle"@) by { assert("Freezing Rain"@.len() != "Freezing Drizzle"@.len()); }
    assert("Rain and Flurries"@ != "Sunny"@) by { assert("Rain and Flurries"@.len() != "Sunny"@.len()); }
    assert("Rain and Flurries"@ != "Mainly Sunny"@) by { assert("Rain and Flurries"@.len() != "Mainly Sunny"@.len()); }
    assert("Rain and Flurries"@ != "Partly Cloudy"@) by { assert("Rain and Flurries"@.len() != "Partly Cloudy"@.len()); }
    assert("Rain and Flurries"@ != "Mostly Cloudy"@) by { assert("Rain and Flurries"@.len() != "Mostly Cloudy"@.len()); }
    assert("Rain and Flurries"@ != "Light Rain Shower"@) by { assert("Rain and Flurries"@[0] != "Light Rain Shower"@[0]); }
    assert("Rain and Flurries"@ != "Light Rain Shower and Flurries"@) by { assert("Rain and Flurries"@.len() != "Light Rain Shower and Flurries"@.len()); }
    assert("Rain and Flurries"@ != "Light Flurries"@) by { assert("Rain and Flurries"@.len() != "Light Flurries"@.len()); }
    assert("Rain and Flurries"@ != "Cloudy"@) by { assert("Rain and Flurries"@.len() != "Cloudy"@.len()); }
    assert("Rain and Flurries"@ != "Precipitation"@) by { assert("Rain and Flurries"@.len() != "Precipitation"@.len()); }
    assert("Rain and Flurries"@ != "Squalls"@) by { assert("Rain and Flurries"@.len() != "Squalls"@.len()); }
    assert("Rain and Flurries"@ != "Light Precipitation"@) by { assert("Rain and Flurries"@.len() != "Light Precipitation"@.len()); }
    assert("Rain and Flurries"@ != "Heavy Precipitation"@) by { assert("Rain and Flurries"@.len() != "Heavy Precipitation"@.len()); }
    assert("Rain and Flurries"@ != "Rain Shower"@) by { assert("Rain and Flurries"@.len() != "Rain Shower"@.len()); }
    assert("Rain and Flurries"@ != "Light Rain and Drizzle"@) by { assert("Rain and Flurries"@.len() != "Light Rain and Drizzle"@.len()); }
    assert("Rain and Flurries"@ != "Light Rain"@) by { assert("Rain and Flurries"@.len() != "Light Rain"@.len()); }
    assert("Rain and Flurries"@ != "Rain"@) by { assert("Rain and Flurries"@.len() != "Rain"@.len()); }
    assert("Rain and Flurries"@ != "Rain and Drizzle"@) by { assert("Rain and Flurries"@.len() != "Rain and Drizzle"@.len()); }
    assert("Rain and Flurries"@ != "Heavy Rain and Drizzle"@) by { assert("Rain and Flurries"@.len() != "Heavy Rain and Drizzle"@.len()); }
    assert("Rain and Flurries"@ != "Heavy Rain Shower"@) by { assert("Rain and Flurries"@[0] != "Heavy Rain Shower"@[0]); }
    assert("Rain and Flurries"@ != "Heavy Rain"@) by { assert("Rain and Flurries"@.len() != "Heavy Rain"@.len()); }
    assert("Rain and Flurries"@ != "Light Freezing Drizzle"@) by { assert("Rain and Flurries"@.len() != "Light Freezing Drizzle"@.len()); }
    assert("Rain and Flurries"@ != "Light Freezing Rain"@) by { assert("Rain and Flurries"@.len() != "Light Freezing Rain"@.len()); }
    assert("Rain and Flurries"@ != "Heavy Freezing Drizzle"@) by { assert("Rain and Flurries"@.len() != "Heavy Freezing Drizzle"@.len()); }
    assert("Rain and Flurries"@ != "Heavy Freezing Rain"@) by { assert("Rain and Flurries"@.len() != "Heavy Freezing Rain"@.len()); }
    assert("Rain and Flurries"@ != "Freezing Drizzle"@) by { assert("Rain and Flurries"@.len() != "Freezing Drizzle"@.len()); }
    assert("Rain and Flurries"@ != "Freezing Rain"@) by { assert("Rain and Flurries"@.len() != "Freezing Rain"@.len()); }
    assert("Rain and Snow"@ != "Sunny"@) by { assert("Rain and Snow"@.len() != "Sunny"@.len()); }
    assert("Rain and Snow"@ != "Mainly Sunny"@) by { assert("Rain and Snow"@.len() != "Mainly Sunny"@.len()); }
    assert("Rain and Snow"@ != "Partly Cloudy"@) by { assert("Rain and Snow"@[0] != "Partly Cloudy"@[0]); }
    assert("Rain and Snow"@ != "Mostly Cloudy"@) by { assert("Rain and Snow"@[0] != "Mostly Cloudy"@[0]); }
    assert("Rain and Snow"@ != "Light Rain Shower"@) by { assert("Rain and Snow"@.len() != "Light Rain Shower"@.len()); }
    assert("Rain and Snow"@ != "Light Rain Shower and Flurries"@) by { assert("Rain and Snow"@.len() != "Light Rain Shower and Flurries"@.len()); }
    assert("Rain and Snow"@ != "Light Flurries"@) by { assert("Rain and Snow"@.len() != "Light Flurries"@.len()); }
    assert("Rain and Snow"@ != "Cloudy"@) by { assert("Rain and Snow"@.len() != "Cloudy"@.len()); }
    assert("Rain and Snow"@ != "Precipitation"@) by { assert("Rain and Snow"@[0] != "Precipitation"@[0]); }
    assert("Rain and Snow"@ != "Squalls"@) by { assert("Rain and Snow"@.len() != "Squalls"@.len()); }
    assert("Rain and Snow"@ != "Light Precipitation"@) by { assert("Rain and Snow"@.len() != "Light Precipitation"@.len()); }
    assert("Rain and Snow"@ != "Heavy Precipitation"@) by { assert("Rain and Snow"@.len() != "Heavy Precipitation"@.len()); }
    assert("Rain and Snow"@ != "Rain Shower"@) by { assert("Rain and Snow"@.len() != "Rain Shower"@.len()); }
    assert("Rain and Snow"@ != "Light Rain and Drizzle"@) by { assert("Rain and Snow"@.len() != "Light Rain and Drizzle"@.len()); }
    assert("Rain and Snow"@ != "Light Rain"@) by { assert("Rain and Snow"@.len() != "Light Rain"@.len()); }
    assert("Rain and Snow"@ != "Rain"@) by { assert("Rain and Snow"@.len() != "Rain"@.len()); }
    assert("Rain and Snow"@ != "Rain and Drizzle"@) by { assert("Rain and Snow"@.len() != "Rain and Drizzle"@.len()); }
    assert("Rain and Snow"@ != "Heavy Rain and Drizzle"@) by { assert("Rain and Snow"@.len() != "Heavy Rain and Drizzle"@.len()); }
    assert("Rain and Snow"@ != "Heavy Rain Shower"@) by { assert("Rain and Snow"@.len() != "Heavy Rain Shower"@.len()); }
    assert("Rain and Snow"@ != "Heavy Rain"@) by { assert("Rain and Snow"@.len() != "Heavy Rain"@.len()); }
    assert("Rain and Snow"@ != "Light Freezing Drizzle"@) by { assert("Rain and Snow"@.len() != "Light Freezing Drizzle"@.len()); }
    assert("Rain and Snow"@ != "Light Freezing Rain"@) by { assert("Rain and Snow"@.len() != "Light Freezing Rain"@.len()); }
    assert("Rain and Snow"@ != "Heavy Freezing Drizzle"@) by { assert("Rain and Snow"@.len() != "Heavy Freezing Drizzle"@.len()); }
    assert("Rain and Snow"@ != "Heavy Freezing Rain"@) by { assert("Rain and Snow"@.len() != "Heavy Freezing Rain"@.len()); }
    assert("Rain and Snow"@ != "Freezing Drizzle"@) by { assert("Rain and Snow"@.len() != "Freezing Drizzle"@.len()); }
    assert("Rain and Snow"@ != "Freezing Rain"@) by { assert("Rain and Snow"@[0] != "Freezing Rain"@[0]); }
    assert("Rain and Snow"@ != "Rain and Flurries"@) by { assert("Rain and Snow"@.len() != "Rain and Flurries"@.len()); }
    assert("Heavy Rain Shower and Flurries"@ != "Sunny"@) by { assert("Heavy Rain Shower and Flurries"@.len() != "Sunny"@.len()); }
    assert("Heavy Rain Shower and Flurries"@ != "Mainly Sunny"@) by { assert("Heavy Rain Shower and Flurries"@.len() != "Mainly Sunny"@.len()); }
    assert("Heavy Rain Shower and Flurries"@ != "Partly Cloudy"@) by { assert("Heavy Rain Shower and Flurries"@.len() != "Partly Cloudy"@.len()); }
    assert("Heavy Rain Shower and Flurries"@ != "Mostly Cloudy"@) by { assert("Heavy Rain Shower and Flurries"@.len() != "Mostly Cloudy"@.len()); }
    assert("Heavy Rain Shower and Flurries"@ != "Light Rain Shower"@) by { assert("Heavy Rain Shower and Flurries"@.len() != "Light Rain Shower"@.len()); }
    assert("Heavy Rain Shower and Flurries"@ != "Light Rain Shower and Flurries"@) by { assert("Heavy Rain Shower and Flurries"@[0] != "Light Rain Shower and Flurries"@[0]); }
    assert("Heavy Rain Shower and Flurries"@ != "Light Flurries"@) by { assert("Heavy Rain Shower and Flurries"@.len() != "Light Flurries"@.len()); }
    assert("Heavy Rain Shower and Flurries"@ != "Cloudy"@) by { assert("Heavy Rain Shower and Flurries"@.len() != "Cloudy"@.len()); }
    assert("Heavy Rain Shower and Flurries"@ != "Precipitation"@) by { assert("Heavy Rain Shower and Flurries"@.len() != "Precipitation"@.len()); }
    assert("Heavy Rain Shower and Flurries"@ != "Squalls"@) by { assert("Heavy Rain Shower and Flurries"@.len() != "Squalls"@.len()); }
    assert("Heavy Rain Shower and Flurries"@ != "Light Precipitation"@) by { assert("Heavy Rain Shower and Flurries"@.len() != "Light Precipitation"@.len()); }
    assert("Heavy Rain Shower and Flurries"@ != "Heavy Precipitation"@) by { assert("Heavy Rain Shower and Flurries"@.len() != "Heavy Precipitation"@.len()); }
    assert("Heavy Rain Shower and Flurries"@ != "Rain Shower"@) by { assert("Heavy Rain Shower and Flurries"@.len() != "Rain Shower"@.len()); }
    assert("Heavy Rain Shower and Flurries"@ != "Light Rain and Drizzle"@) by { assert("Heavy Rain Shower and Flurries"@.len() != "Light Rain and Drizzle"@.len()); }
    assert("Heavy Rain Shower and Flurries"@ != "Light Rain"@) by { assert("Heavy Rain Shower and Flurries"@.len() != "Light Rain"@.len()); }
    assert("Heavy Rain Shower and Flurries"@ != "Rain"@) by { assert("Heavy Rain Shower and Flurries"@.len() != "Rain"@.len()); }
    assert("Heavy Rain Shower and Flurries"@ != "Rain and Drizzle"@) by { assert("Heavy Rain Shower and Flurries"@.len() != "Rain and Drizzle"@.len()); }
    assert("Heavy Rain Shower and Flurries"@ != "Heavy Rain and Drizzle"@) by { assert("Heavy Rain Shower and Flurries"@.len() != "Heavy Rain and Drizzle"@.len()); }
    assert("Heavy Rain Shower and Flurries"@ != "Heavy Rain Shower"@) by { assert("Heavy Rain Shower and Flurries"@.len() != "Heavy Rain Shower"@.len()); }
    assert("Heavy Rain Shower and Flurries"@ != "Heavy Rain"@) by { assert("Heavy Rain Shower and Flurries"@.len() != "Heavy Rain"@.len()); }
    assert("Heavy Rain Shower and Flurries"@ != "Light Freezing Drizzle"@) by { assert("Heavy Rain Shower and Flurries"@.len() != "Light Freezing Drizzle"@.len()); }
    assert("Heavy Rain Shower and Flurries"@ != "Light Freezing Rain"@) by { assert("Heavy Rain Shower and Flurries"@.len() != "Light Freezing Rain"@.len()); }
    assert("Heavy Rain Shower and Flurries"@ != "Heavy Freezing Drizzle"@) by { assert("Heavy Rain Shower and Flurries"@.len() != "Heavy Freezing Drizzle"@.len()); }
    assert("Heavy Rain Shower and Flurries"@ != "Heavy Freezing Rain"@) by { assert("Heavy Rain Shower and Flurries"@.len() != "Heavy Freezing Rain"@.len()); }
    assert("Heavy Rain Shower and Flurries"@ != "Freezing Drizzle"@) by { assert("Heavy Rain Shower and Flurries"@.len() != "Freezing Drizzle"@.len()); }
    assert("Heavy Rain Shower and Flurries"@ != "Freezing Rain"@) by { assert("Heavy Rain Shower and Flurries"@.len() != "Freezing Rain"@.len()); }
    assert("Heavy Rain Shower and Flurries"@ != "Rain and Flurries"@) by { assert("Heavy Rain Shower and Flurries"@.len() != "Rain and Flurries"@.len()); }
    assert("Heavy Rain Shower and Flurries"@ != "Rain and Snow"@) by { assert("Heavy Rain Shower and Flurries"@.len() != "Rain and Snow"@.len()); }
    assert("Heavy Rain and Snow"@ != "Sunny"@) by { assert("Heavy Rain and Snow"@.len() != "Sunny"@.len()); }
    assert("Heavy Rain and Snow"@ != "Mainly Sunny"@) by { assert("Heavy Rain and Snow"@.len() != "Mainly Sunny"@.len()); }
    assert("Heavy Rain and Snow"@ != "Partly Cloudy"@) by { assert("Heavy Rain and Snow"@.len() != "Partly Cloudy"@.len()); }
    assert("Heavy Rain and Snow"@ != "Mostly Cloudy"@) by { assert("Heavy Rain and Snow"@.len() != "Mostly Cloudy"@.len()); }
    assert("Heavy Rain and Snow"@ != "Light Rain Shower"@) by { assert("Heavy Rain and Snow"@.len() != "Light Rain Shower"@.len()); }
    assert("Heavy Rain and Snow"@ != "Light Rain Shower and Flurries"@) by { assert("Heavy Rain and Snow"@.len() != "Light Rain Shower and Flurries"@.len()); }
    assert("Heavy Rain and Snow"@ != "Light Flurries"@) by { assert("Heavy Rain and Snow"@.len() != "Light Flurries"@.len()); }
    assert("Heavy Rain and Snow"@ != "Cloudy"@) by { assert("Heavy Rain and Snow"@.len() != "Cloudy"@.len()); }
    assert("Heavy Rain and Snow"@ != "Precipitation"@) by { assert("Heavy Rain and Snow"@.len() != "Precipitation"@.len()); }
    assert("Heavy Rain and Snow"@ != "Squalls"@) by { assert("Heavy Rain and Snow"@.len() != "Squalls"@.len()); }
    assert("Heavy Rain and Snow"@ != "Light Precipitation"@) by { assert("Heavy Rain and Snow"@[0] != "Light Precipitation"@[0]); }
    assert("Heavy Rain and Snow"@ != "Heavy Precipitation"@) by { assert("Heavy Rain and Snow"@[6] != "Heavy Precipitation"@[6]); }
    assert("Heavy Rain and Snow"@ != "Rain Shower"@) by { assert("Heavy Rain and Snow"@.len() != "Rain Shower"@.len()); }
    assert("Heavy Rain and Snow"@ != "Light Rain and Drizzle"@) by { assert("Heavy Rain and Snow"@.len() != "Light Rain and Drizzle"@.len()); }
    assert("Heavy Rain and Snow"@ != "Light Rain"@) by { assert("Heavy Rain and Snow"@.len() != "Light Rain"@.len()); }
    assert("Heavy Rain and Snow"@ != "Rain"@) by { assert("Heavy Rain and Snow"@.len() != "Rain"@.len()); }
    assert("Heavy Rain and Snow"@ != "Rain and Drizzle"@) by { assert("Heavy Rain and Snow"@.len() != "Rain and Drizzle"@.len()); }
    assert("Heavy Rain and Snow"@ != "Heavy Rain and Drizzle"@) by { assert("Heavy Rain and Snow"@.len() != "Heavy Rain and Drizzle"@.len()); }
    assert("Heavy Rain and Snow"@ != "Heavy Rain Shower"@) by { assert("Heavy Rain and Snow"@.len() != "Heavy Rain Shower"@.len()); }
    assert("Heavy Rain and Snow"@ != "Heavy Rain"@) by { assert("Heavy Rain and Snow"@.len() != "Heavy Rain"@.len()); }
    assert("Heavy Rain and Snow"@ != "Light Freezing Drizzle"@) by { assert("Heavy Rain and Snow"@.len() != "Light Freezing Drizzle"@.len()); }
    assert("Heavy Rain and Snow"@ != "Light Freezing Rain"@) by { assert("Heavy Rain and Snow"@[0] != "Light Freezing Rain"@[0]); }
    assert("Heavy Rain and Snow"@ != "Heavy Freezing Drizzle"@) by { assert("Heavy Rain and Snow"@.len() != "Heavy Freezing Drizzle"@.len()); }
    assert("Heavy Rain and Snow"@ != "Heavy Freezing Rain"@) by { assert("Heavy Rain and Snow"@[6] != "Heavy Freezing Rain"@[6]); }
    assert("Heavy Rain and Snow"@ != "Freezing Drizzle"@) by { assert("Heavy Rain and Snow"@.len() != "Freezing Drizzle"@.len()); }
    assert("Heavy Rain and Snow"@ != "Freezing Rain"@) by { assert("Heavy Rain and Snow"@.len() != "Freezing Rain"@.len()); }
    assert("Heavy Rain and Snow"@ != "Rain and Flurries"@) by { assert("Heavy Rain and Snow"@.len() != "Rain and Flurries"@.len()); }
    assert("Heavy Rain and Snow"@ != "Rain and Snow"@) by { assert("Heavy Rain and Snow"@.len() != "Rain and Snow"@.len()); }
    assert("Heavy Rain and Snow"@ != "Heavy Rain Shower and Flurries"@) by { assert("Heavy Rain and Snow"@.len() != "Heavy Rain Shower and Flurries"@.len()); }
}

proof fn lemma_condition_table_4()
    ensures
        spec_condition_mapper("Light Snow"@) == Conditions::LightSnow,
        spec_condition_mapper("Snow"@) == Conditions::Snow,
        spec_condition_mapper("Flurries"@) == Conditions::Flurries,
        spec_condition_mapper("Heavy Flurries"@) == Conditions::Flurries,
        spec_condition_mapper("Heavy Snow"@) == Conditions::HeavySnow,
        spec_condition_mapper("Thunderstorm with Rain"@) == Conditions::Thunderstorm,
        spec_condition_mapper("Thunderstorm with Heavy Rain"@) == Conditions::Thunderstorm,
        spec_condition_mapper("Thunderstorm with Light Rain"@) == Conditions::Thunderstorm,
        spec_condition_mapper("Thunderstorm"@) == Conditions::Thunderstorm,
        spec_condition_mapper("Heavy Thunderstorm"@) == Conditions::Thunderstorm,
{
    reveal_strlit("Sunny");
    reveal_strlit("Mainly Sunny");
    reveal_strlit("Partly Cloudy");
    reveal_strlit("Mostly Cloudy");
    reveal_strlit("Light Rain Shower");
    reveal_strlit("Light Rain Shower and Flurries");
    reveal_strlit("Light Flurries");
    reveal_strlit("Cloudy");
    reveal_strlit("Precipitation");
    reveal_strlit("Squalls");
    reveal_strlit("Light Precipitation");
    reveal_strlit("Heavy Precipitation");
    reveal_strlit("Rain Shower");
    reveal_strlit("Light Rain and Drizzle");
    reveal_strlit("Light Rain");
    reveal_strlit("Rain");
    reveal_strlit("Rain and Drizzle");
    reveal_strlit("Heavy Rain and Drizzle");
    reveal_strlit("Heavy Rain Shower");
    reveal_strlit("Heavy Rain");
    reveal_strlit("Light Freezing Drizzle");
    reveal_strlit("Light Freezing Rain");
    reveal_strlit("Heavy Freezing Drizzle");
    reveal_strlit("Heavy Freezing Rain");
    reveal_strlit("Freezing Drizzle");
    reveal_strlit("Freezing Rain");
    reveal_strlit("Rain and Flurries");
    reveal_strlit("Rain and Snow");
    reveal_strlit("Heavy Rain Shower and Flurries");
    reveal_strlit("Heavy Rain and Snow");
    reveal_strlit("Light Snow");
    reveal_strlit("Snow");
    reveal_strlit("Flurries");
    reveal_strlit("Heavy Flurries");
    reveal_strlit("Heavy Snow");
    reveal_strlit("Thunderstorm with Rain");
    reveal_strlit("Thunderstorm with Heavy Rain");
    reveal_strlit("Thunderstorm with Light Rain");
    reveal_strlit("Thunderstorm");
    reveal_strlit("Heavy Thunderstorm");
    assert("Light Snow"@ != "Sunny"@) by { assert("Light Snow"@.len() != "Sunny"@.len()); }
    assert("Light Snow"@ != "Mainly Sunny"@) by { assert("Light Snow"@.len() != "Mainly Sunny"@.len()); }
    assert("Light Snow"@ != "Partly Cloudy"@) by { assert("Light Snow"@.len() != "Partly Cloudy"@.len()); }
    assert("Light Snow"@ != "Mostly Cloudy"@) by { assert("Light Snow"@.len() != "Mostly Cloudy"@.len()); }
    assert("Light Snow"@ != "Light Rain Shower"@) by { assert("Light Snow"@.len() != "Light Rain Shower"@.len()); }
    assert("Light Snow"@ != "Light Rain Shower and Flurries"@) by { assert("Light Snow"@.len() != "Light Rain Shower and Flurries"@.len()); }
    assert("Light Snow"@ != "Light Flurries"@) by { assert("Light Snow"@.len() != "Light Flurries"@.len()); }
    assert("Light Snow"@ != "Cloudy"@) by { assert("Light Snow"@.len() != "Cloudy"@.len()); }
    assert("Light Snow"@ != "Precipitation"@) by { assert("Light Snow"@.len() != "Precipitation"@.len()); }
    assert("Light Snow"@ != "Squalls"@) by { assert("Light Snow"@.len() != "Squalls"@.len()); }
    assert("Light Snow"@ != "Light Precipitation"@) by { assert("Light Snow"@.len() != "Light Precipitation"@.len()); }
    assert("Light Snow"@ != "Heavy Precipitation"@) by { assert("Light Snow"@.len() != "Heavy Precipitation"@.len()); }
    assert("Light Snow"@ != "Rain Shower"@) by { assert("Light Snow"@.len() != "Rain Shower"@.len()); }
    assert("Light Snow"@ != "Light Rain and Drizzle"@) by { assert("Light Snow"@.len() != "Light Rain and Drizzle"@.len()); }
    assert("Light Snow"@ != "Light Rain"@) by { assert("Light Snow"@[6] != "Light Rain"@[6]); }
    assert("Light Snow"@ != "Rain"@) by { assert("Light Snow"@.len() != "Rain"@.len()); }
    assert("Light Snow"@ != "Rain and Drizzle"@) by { assert("Light Snow"@.len() != "Rain and Drizzle"@.len()); }
    assert("Light Snow"@ != "Heavy Rain and Drizzle"@) by { assert("Light Snow"@.len() != "Heavy Rain and Drizzle"@.len()); }
    assert("Light Snow"@ != "Heavy Rain Shower"@) by { assert("Light Snow"@.len() != "Heavy Rain Shower"@.len()); }
    assert("Light Snow"@ != "Heavy Rain"@) by { assert("Light Snow"@[0] != "Heavy Rain"@[0]); }
    assert("Light Snow"@ != "Light Freezing Drizzle"@) by { assert("Light Snow"@.len() != "Light Freezing Drizzle"@.len()); }
    assert("Light Snow"@ != "Light Freezing Rain"@) by { assert("Light Snow"@.len() != "Light Freezing Rain"@.len()); }
    assert("Light Snow"@ != "Heavy Freezing Drizzle"@) by { assert("Light Snow"@.len() != "Heavy Freezing Drizzle"@.len()); }
    assert("Light Snow"@ != "Heavy Freezing Rain"@) by { assert("Light Snow"@.len() != "Heavy Freezing Rain"@.len()); }
    assert("Light Snow"@ != "Freezing Drizzle"@) by { assert("Light Snow"@.len() != "Freezing Drizzle"@.len()); }
    assert("Light Snow"@ != "Freezing Rain"@) by { assert("Light Snow"@.len() != "Freezing Rain"@.len()); }
    assert("Light Snow"@ != "Rain and Flurries"@) by { assert("Light Snow"@.len() != "Rain and Flurries"@.len()); }
    assert("Light Snow"@ != "Rain and Snow"@) by { assert("Light Snow"@.len() != "Rain and Snow"@.len()); }
    assert("Light Snow"@ != "Heavy Rain Shower and Flurries"@) by { assert("Light Snow"@.len() != "Heavy Rain Shower and Flurries"@.len()); }
    assert("Light Snow"@ != "Heavy Rain and Snow"@) by { assert("Light Snow"@.len() != "Heavy Rain and Snow"@.len()); }
    assert("Snow"@ != "Sunny"@) by { assert("Snow"@.len() != "Sunny"@.len()); }
    assert("Snow"@ != "Mainly Sunny"@) by { assert("Snow"@.len() != "Mainly Sunny"@.len()); }
    assert("Snow"@ != "Partly Cloudy"@) by { assert("Snow"@.len() != "Partly Cloudy"@.len()); }
    assert("Snow"@ != "Mostly Cloudy"@) by { assert("Snow"@.len() != "Mostly Cloudy"@.len()); }
    assert("Snow"@ != "Light Rain Shower"@) by { assert("Snow"@.len() != "Light Rain Shower"@.len()); }
    assert("Snow"@ != "Light Rain Shower and Flurries"@) by { assert("Snow"@.len() != "Light Rain Shower and Flurries"@.len()); }
    assert("Snow"@ != "Light Flurries"@) by { assert("Snow"@.len() != "Light Flurries"@.len()); }
    assert("Snow"@ != "Cloudy"@) by { assert("Snow"@.len() != "Cloudy"@.len()); }
    assert("Snow"@ != "Precipitation"@) by { assert("Snow"@.len() != "Precipitation"@.len()); }
    assert("Snow"@ != "Squalls"@) by { assert("Snow"@.len() != "Squalls"@.len()); }
    assert("Snow"@ != "Light Precipitation"@) by { assert("Snow"@.len() != "Light Precipitation"@.len()); }
    assert("Snow"@ != "Heavy Precipitation"@) by { assert("Snow"@.len() != "Heavy Precipitation"@.len()); }
    assert("Snow"@ != "Rain Shower"@) by { assert("Snow"@.len() != "Rain Shower"@.len()); }
    assert("Snow"@ != "Light Rain and Drizzle"@) by { assert("Snow"@.len() != "Light Rain and Drizzle"@.len()); }
    assert("Snow"@ != "Light Rain"@) by { assert("Snow"@.len() != "Light Rain"@.len()); }
    assert("Snow"@ != "Rain"@) by { assert("Snow"@[0] != "Rain"@[0]); }
    assert("Snow"@ != "Rain and Drizzle"@) by { assert("Snow"@.len() != "Rain and Drizzle"@.len()); }
    assert("Snow"@ != "Heavy Rain and Drizzle"@) by { assert("Snow"@.len() != "Heavy Rain and Drizzle"@.len()); }
    assert("Snow"@ != "Heavy Rain Shower"@) by { assert("Snow"@.len() != "Heavy Rain Shower"@.len()); }
    assert("Snow"@ != "Heavy Rain"@) by { assert("Snow"@.len() != "Heavy Rain"@.len()); }
    assert("Snow"@ != "Light Freezing Drizzle"@) by { assert("Snow"@.len() != "Light Freezing Drizzle"@.len()); }
    assert("Snow"@ != "Light Freezing Rain"@) by { assert("Snow"@.len() != "Light Freezing Rain"@.len()); }
    assert("Snow"@ != "Heavy Freezing Drizzle"@) by { assert("Snow"@.len() != "Heavy Freezing Drizzle"@.len()); }
    assert("Snow"@ != "Heavy Freezing Rain"@) by { assert("Snow"@.len() != "Heavy Freezing Rain"@.len()); }
    assert("Snow"@ != "Freezing Drizzle"@) by { assert("Snow"@.len() != "Freezing Drizzle"@.len()); }
    assert("Snow"@ != "Freezing Rain"@) by { assert("Snow"@.len() != "Freezing Rain"@.len()); }
    assert("Snow"@ != "Rain and Flurries"@) by { assert("Snow"@.len() != "Rain and Flurries"@.len()); }
    assert("Snow"@ != "Rain and Snow"@) by { assert("Snow"@.len() != "Rain and Snow"@.len()); }
    assert("Snow"@ != "Heavy Rain Shower and Flurries"@) by { assert("Snow"@.len() != "Heavy Rain Shower and Flurries"@.len()); }
    assert("Snow"@ != "Heavy Rain and Snow"@) by { assert("Snow"@.len() != "Heavy Rain and Snow"@.len()); }
    assert("Snow"@ != "Light Snow"@) by { assert("Snow"@.len() != "Light Snow"@.len()); }
    assert("Flurries"@ != "Sunny"@) by { assert("Flurries"@.len() != "Sunny"@.len()); }
    assert("Flurries"@ != "Mainly Sunny"@) by { assert("Flurries"@.len() != "Mainly Sunny"@.len()); }
    assert("Flurries"@ != "Partly Cloudy"@) by { assert("Flurries"@.len() != "Partly Cloudy"@.len()); }
    assert("Flurries"@ != "Mostly Cloudy"@) by { assert("Flurries"@.len() != "Mostly Cloudy"@.len()); }
    assert("Flurries"@ != "Light Rain Shower"@) by { assert("Flurries"@.len() != "Light Rain Shower"@.len()); }
    assert("Flurries"@ != "Light Rain Shower and Flurries"@) by { assert("Flurries"@.len() != "Light Rain Shower and Flurries"@.len()); }
    assert("Flurries"@ != "Light Flurries"@) by { assert("Flurries"@.len() != "Light Flurries"@.len()); }
    assert("Flurries"@ != "Cloudy"@) by { assert("Flurries"@.len() != "Cloudy"@.len()); }
    assert("Flurries"@ != "Precipitation"@) by { assert("Flurries"@.len() != "Precipitation"@.len()); }
    assert("Flurries"@ != "Squalls"@) by { assert("Flurries"@.len() != "Squalls"@.len()); }
    assert("Flurries"@ != "Light Precipitation"@) by { assert("Flurries"@.len() != "Light Precipitation"@.len()); }
    assert("Flurries"@ != "Heavy Precipitation"@) by { assert("Flurries"@.len() != "Heavy Precipitation"@.len()); }
    assert("Flurries"@ != "Rain Shower"@) by { assert("Flurries"@.len() != "Rain Shower"@.len()); }
    assert("Flurries"@ != "Light Rain and Drizzle"@) by { assert("Flurries"@.len() != "Light Rain and Drizzle"@.len()); }
    assert("Flurries"@ != "Light Rain"@) by { assert("Flurries"@.len() != "Light Rain"@.len()); }
    assert("Flurries"@ != "Rain"@) by { assert("Flurries"@.len() != "Rain"@.len()); }
    assert("Flurries"@ != "Rain and Drizzle"@) by { assert("Flurries"@.len() != "Rain and Drizzle"@.len()); }
    assert("Flurries"@ != "Heavy Rain and Drizzle"@) by { assert("Flurries"@.len() != "Heavy Rain and Drizzle"@.len()); }
    assert("Flurries"@ != "Heavy Rain Shower"@) by { assert("Flurries"@.len() != "Heavy Rain Shower"@.len()); }
    assert("Flurries"@ != "Heavy Rain"@) by { assert("Flurries"@.len() != "Heavy Rain"@.len()); }
    assert("Flurries"@ != "Light Freezing Drizzle"@) by { assert("Flurries"@.len() != "Light Freezing Drizzle"@.len()); }
    assert("Flurries"@ != "Light Freezing Rain"@) by { assert("Flurries"@.len() != "Light Freezing Rain"@.len()); }
    assert("Flurries"@ != "Heavy Freezing Drizzle"@) by { assert("Flurries"@.len() != "Heavy Freezing Drizzle"@.len()); }
    assert("Flurries"@ != "Heavy Freezing Rain"@) by { assert("Flurries"@.len() != "Heavy Freezing Rain"@.len()); }
    assert("Flurries"@ != "Freezing Drizzle"@) by { assert("Flurries"@.len() != "Freezing Drizzle"@.len()); }
    assert("Flurries"@ != "Freezing Rain"@) by { assert("Flurries"@.len() != "Freezing Rain"@.len()); }
    assert("Flurries"@ != "Rain and Flurries"@) by { assert("Flurries"@.len() != "Rain and Flurries"@.len()); }
    assert("Flurries"@ != "Rain and Snow"@) by { assert("Flurries"@.len() != "Rain and Snow"@.len()); }
    assert("Flurries"@ != "Heavy Rain Shower and Flurries"@) by { assert("Flurries"@.len() != "Heavy Rain Shower and Flurries"@.len()); }
    assert("Flurries"@ != "Heavy Rain and Snow"@) by { assert("Flurries"@.len() != "Heavy Rain and Snow"@.len()); }
    assert("Flurries"@ != "Light Snow"@) by { assert("Flurries"@.len() != "Light Snow"@.len()); }
    assert("Flurries"@ != "Snow"@) by { assert("Flurries"@.len() != "Snow"@.len()); }
    assert("Heavy Flurries"@ != "Sunny"@) by { assert("Heavy Flurries"@.len() != "Sunny"@.len()); }
    assert("Heavy Flurries"@ != "Mainly Sunny"@) by { assert("Heavy Flurries"@.len() != "Mainly Sunny"@.len()); }
    assert("Heavy Flurries"@ != "Partly Cloudy"@) by { assert("Heavy Flurries"@.len() != "Partly Cloudy"@.len()); }
    assert("Heavy Flurries"@ != "Mostly Cloudy"@) by { assert("Heavy Flurries"@.len() != "Mostly Cloudy"@.len()); }
    assert("Heavy Flurries"@ != "Light Rain Shower"@) by { assert("Heavy Flurries"@.len() != "Light Rain Shower"@.len()); }
    assert("Heavy Flurries"@ != "Light Rain Shower and Flurries"@) by { assert("Heavy Flurries"@.len() != "Light Rain Shower and Flurries"@.len()); }
    assert("Heavy Flurries"@ != "Light Flurries"@) by { assert("Heavy Flurries"@[0] != "Light Flurries"@[0]); }
    assert("Heavy Flurries"@ != "Cloudy"@) by { assert("Heavy Flurries"@.len() != "Cloudy"@.len()); }
    assert("Heavy Flurries"@ != "Precipitation"@) by { assert("Heavy Flurries"@.len() != "Precipitation"@.len()); }
    assert("Heavy Flurries"@ != "Squalls"@) by { assert("Heavy Flurries"@.len() != "Squalls"@.len()); }
    assert("Heavy Flurries"@ != "Light Precipitation"@) by { assert("Heavy Flurries"@.len() != "Light Precipitation"@.len()); }
    assert("Heavy Flurries"@ != "Heavy Precipitation"@) by { assert("Heavy Flurries"@.len() != "Heavy Precipitation"@.len()); }
    assert("Heavy Flurries"@ != "Rain Shower"@) by { assert("Heavy Flurries"@.len() != "Rain Shower"@.len()); }
    assert("Heavy Flurries"@ != "Light Rain and Drizzle"@) by { assert("Heavy Flurries"@.len() != "Light Rain and Drizzle"@.len()); }
    assert("Heavy Flurries"@ != "Light Rain"@) by { assert("Heavy Flurries"@.len() != "Light Rain"@.len()); }
    assert("Heavy Flurries"@ != "Rain"@) by { assert("Heavy Flurries"@.len() != "Rain"@.len()); }
    assert("Heavy Flurries"@ != "Rain and Drizzle"@) by { assert("Heavy Flurries"@.len() != "Rain and Drizzle"@.len()); }
    assert("Heavy Flurries"@ != "Heavy Rain and Drizzle"@) by { assert("Heavy Flurries"@.len() != "Heavy Rain and Drizzle"@.len()); }
    assert("Heavy Flurries"@ != "Heavy Rain Shower"@) by { assert("Heavy Flurries"@.len() != "Heavy Rain Shower"@.len()); }
    assert("Heavy Flurries"@ != "Heavy Rain"@) by { assert("Heavy Flurries"@.len() != "Heavy Rain"@.len()); }
    assert("Heavy Flurries"@ != "Light Freezing Drizzle"@) by { assert("Heavy Flurries"@.len() != "Light Freezing Drizzle"@.len()); }
    assert("Heavy Flurries"@ != "Light Freezing Rain"@) by { assert("Heavy Flurries"@.len() != "Light Freezing Rain"@.len()); }
    assert("Heavy Flurries"@ != "Heavy Freezing Drizzle"@) by { assert("Heavy Flurries"@.len() != "Heavy Freezing Drizzle"@.len()); }
    assert("Heavy Flurries"@ != "Heavy Freezing Rain"@) by { assert("Heavy Flurries"@.len() != "Heavy Freezing Rain"@.len()); }
    assert("Heavy Flurries"@ != "Freezing Drizzle"@) by { assert("Heavy Flurries"@.len() != "Freezing Drizzle"@.len()); }
    assert("Heavy Flurries"@ != "Freezing Rain"@) by { assert("Heavy Flurries"@.len() != "Freezing Rain"@.len()); }
    assert("Heavy Flurries"@ != "Rain and Flurries"@) by { assert("Heavy Flurries"@.len() != "Rain and Flurries"@.len()); }
    assert("Heavy Flurries"@ != "Rain and Snow"@) by { assert("Heavy Flurries"@.len() != "Rain and Snow"@.len()); }
    assert("Heavy Flurries"@ != "Heavy Rain Shower and Flurries"@) by { assert("Heavy Flurries"@.len() != "Heavy Rain Shower and Flurries"@.len()); }
    assert("Heavy Flurries"@ != "Heavy Rain and Snow"@) by { assert("Heavy Flurries"@.len() != "Heavy Rain and Snow"@.len()); }
    assert("Heavy Flurries"@ != "Light Snow"@) by { assert("Heavy Flurries"@.len() != "Light Snow"@.len()); }
    assert("Heavy Flurries"@ != "Snow"@) by { assert("Heavy Flurries"@.len() != "Snow"@.len()); }
    assert("Heavy Flurries"@ != "Flurries"@) by { assert("Heavy Flurries"@.len() != "Flurries"@.len()); }
    assert("Heavy Snow"@ != "Sunny"@) by { assert("Heavy Snow"@.len() != "Sunny"@.len()); }
    assert("Heavy Snow"@ != "Mainly Sunny"@) by { assert("Heavy Snow"@.len() != "Mainly Sunny"@.len()); }
    assert("Heavy Snow"@ != "Partly Cloudy"@) by { assert("Heavy Snow"@.len() != "Partly Cloudy"@.len()); }
    assert("Heavy Snow"@ != "Mostly Cloudy"@) by { assert("Heavy Snow"@.len() != "Mostly Cloudy"@.len()); }
    assert("Heavy Snow"@ != "Light Rain Shower"@) by { assert("Heavy Snow"@.len() != "Light Rain Shower"@.len()); }
    assert("Heavy Snow"@ != "Light Rain Shower and Flurries"@) by { assert("Heavy Snow"@.len() != "Light Rain Shower and Flurries"@.len()); }
    assert("Heavy Snow"@ != "Light Flurries"@) by { assert("Heavy Snow"@.len() != "Light Flurries"@.len()); }
    assert("Heavy Snow"@ != "Cloudy"@) by { assert("Heavy Snow"@.len() != "Cloudy"@.len()); }
    assert("Heavy Snow"@ != "Precipitation"@) by { assert("Heavy Snow"@.len() != "Precipitation"@.len()); }
    assert("Heavy Snow"@ != "Squalls"@) by { assert("Heavy Snow"@.len() != "Squalls"@.len()); }
    assert("Heavy Snow"@ != "Light Precipitation"@) by { assert("Heavy Snow"@.len() != "Light Precipitation"@.len()); }
    assert("Heavy Snow"@ != "Heavy Precipitation"@) by { assert("Heavy Snow"@.len() != "Heavy Precipitation"@.len()); }
    assert("Heavy Snow"@ != "Rain Shower"@) by { assert("Heavy Snow"@.len() != "Rain Shower"@.len()); }
    assert("Heavy Snow"@ != "Light Rain and Drizzle"@) by { assert("Heavy Snow"@.len() != "Light Rain and Drizzle"@.len()); }
    assert("Heavy Snow"@ != "Light Rain"@) by { assert("Heavy Snow"@[0] != "Light Rain"@[0]); }
    assert("Heavy Snow"@ != "Rain"@) by { assert("Heavy Snow"@.len() != "Rain"@.len()); }
    assert("Heavy Snow"@ != "Rain and Drizzle"@) by { assert("Heavy Snow"@.len() != "Rain and Drizzle"@.len()); }
    assert("Heavy Snow"@ != "Heavy Rain and Drizzle"@) by { assert("Heavy Snow"@.len() != "Heavy Rain and Drizzle"@.len()); }
    assert("Heavy Snow"@ != "Heavy Rain Shower"@) by { assert("Heavy Snow"@.len() != "Heavy Rain Shower"@.len()); }
    assert("Heavy Snow"@ != "Heavy Rain"@) by { assert("Heavy Snow"@[6] != "Heavy Rain"@[6]); }
    assert("Heavy Snow"@ != "Light Freezing Drizzle"@) by { assert("Heavy Snow"@.len() != "Light Freezing Drizzle"@.len()); }
    assert("Heavy Snow"@ != "Light Freezing Rain"@) by { assert("Heavy Snow"@.len() != "Light Freezing Rain"@.len()); }
    assert("Heavy Snow"@ != "Heavy Freezing Drizzle"@) by { assert("Heavy Snow"@.len() != "Heavy Freezing Drizzle"@.len()); }
    assert("Heavy Snow"@ != "Heavy Freezing Rain"@) by { assert("Heavy Snow"@.len() != "Heavy Freezing Rain"@.len()); }
    assert("Heavy Snow"@ != "Freezing Drizzle"@) by { assert("Heavy Snow"@.len() != "Freezing Drizzle"@.len()); }
    assert("Heavy Snow"@ != "Freezing Rain"@) by { assert("Heavy Snow"@.len() != "Freezing Rain"@.len()); }
    assert("Heavy Snow"@ != "Rain and Flurries"@) by { assert("Heavy Snow"@.len() != "Rain and Flurries"@.len()); }
    assert("Heavy Snow"@ != "Rain and Snow"@) by { assert("Heavy Snow"@.len() != "Rain and Snow"@.len()); }
    assert("Heavy Snow"@ != "Heavy Rain Shower and Flurries"@) by { assert("Heavy Snow"@.len() != "Heavy Rain Shower and Flurries"@.len()); }
    assert("Heavy Snow"@ != "Heavy Rain and Snow"@) by { assert("Heavy Snow"@.len() != "Heavy Rain and Snow"@.len()); }
    assert("Heavy Snow"@ != "Light Snow"@) by { assert("Heavy Snow"@[0] != "Light Snow"@[0]); }
    assert("Heavy Snow"@ != "Snow"@) by { assert("Heavy Snow"@.len() != "Snow"@.len()); }
    assert("Heavy Snow"@ != "Flurries"@) by { assert("Heavy Snow"@.len() != "Flurries"@.len()); }
    assert("Heavy Snow"@ != "Heavy Flurries"@) by { assert("Heavy Snow"@.len() != "Heavy Flurries"@.len()); }
    assert("Thunderstorm with Rain"@ != "Sunny"@) by { assert("Thunderstorm with Rain"@.len() != "Sunny"@.len()); }
    assert("Thunderstorm with Rain"@ != "Mainly Sunny"@) by { assert("Thunderstorm with Rain"@.len() != "Mainly Sunny"@.len()); }
    assert("Thunderstorm with Rain"@ != "Partly Cloudy"@) by { assert("Thunderstorm with Rain"@.len() != "Partly Cloudy"@.len()); }
    assert("Thunderstorm with Rain"@ != "Mostly Cloudy"@) by { assert("Thunderstorm with Rain"@.len() != "Mostly Cloudy"@.len()); }
    assert("Thunderstorm with Rain"@ != "Light Rain Shower"@) by { assert("Thunderstorm with Rain"@.len() != "Light Rain Shower"@.len()); }
    assert("Thunderstorm with Rain"@ != "Light Rain Shower and Flurries"@) by { assert("Thunderstorm with Rain"@.len() != "Light Rain Shower and Flurries"@.len()); }
    assert("Thunderstorm with Rain"@ != "Light Flurries"@) by { assert("Thunderstorm with Rain"@.len() != "Light Flurries"@.len()); }
    assert("Thunderstorm with Rain"@ != "Cloudy"@) by { assert("Thunderstorm with Rain"@.len() != "Cloudy"@.len()); }
    assert("Thunderstorm with Rain"@ != "Precipitation"@) by { assert("Thunderstorm with Rain"@.len() != "Precipitation"@.len()); }
    assert("Thunderstorm with Rain"@ != "Squalls"@) by { assert("Thunderstorm with Rain"@.len() != "Squalls"@.len()); }
    assert("Thunderstorm with Rain"@ != "Light Precipitation"@) by { assert("Thunderstorm with Rain"@.len() != "Light Precipitation"@.len()); }
    assert("Thunderstorm with Rain"@ != "Heavy Precipitation"@) by { assert("Thunderstorm with Rain"@.len() != "Heavy Precipitation"@.len()); }
    assert("Thunderstorm with Rain"@ != "Rain Shower"@) by { assert("Thunderstorm with Rain"@.len() != "Rain Shower"@.len()); }
    assert("Thunderstorm with Rain"@ != "Light Rain and Drizzle"@) by { assert("Thunderstorm with Rain"@[0] != "Light Rain and Drizzle"@[0]); }
    assert("Thunderstorm with Rain"@ != "Light Rain"@) by { assert("Thunderstorm with Rain"@.len() != "Light Rain"@.len()); }
    assert("Thunderstorm with Rain"@ != "Rain"@) by { assert("Thunderstorm with Rain"@.len() != "Rain"@.len()); }
    assert("Thunderstorm with Rain"@ != "Rain and Drizzle"@) by { assert("Thunderstorm with Rain"@.len() != "Rain and Drizzle"@.len()); }
    assert("Thunderstorm with Rain"@ != "Heavy Rain and Drizzle"@) by { assert("Thunderstorm with Rain"@[0] != "Heavy Rain and Drizzle"@[0]); }
    assert("Thunderstorm with Rain"@ != "Heavy Rain Shower"@) by { assert("Thunderstorm with Rain"@.len() != "Heavy Rain Shower"@.len()); }
    assert("Thunderstorm with Rain"@ != "Heavy Rain"@) by { assert("Thunderstorm with Rain"@.len() != "Heavy Rain"@.len()); }
    assert("Thunderstorm with Rain"@ != "Light Freezing Drizzle"@) by { assert("Thunderstorm with Rain"@[0] != "Light Freezing Drizzle"@[0]); }
    assert("Thunderstorm with Rain"@ != "Light Freezing Rain"@) by { assert("Thunderstorm with Rain"@.len() != "Light Freezing Rain"@.len()); }
    assert("Thunderstorm with Rain"@ != "Heavy Freezing Drizzle"@) by { assert("Thunderstorm with Rain"@[0] != "Heavy Freezing Drizzle"@[0]); }
    assert("Thunderstorm with Rain"@ != "Heavy Freezing Rain"@) by { assert("Thunderstorm with Rain"@.len() != "Heavy Freezing Rain"@.len()); }
    assert("Thunderstorm with Rain"@ != "Freezing Drizzle"@) by { assert("Thunderstorm with Rain"@.len() != "Freezing Drizzle"@.len()); }
    assert("Thunderstorm with Rain"@ != "Freezing Rain"@) by { assert("Thunderstorm with Rain"@.len() != "Freezing Rain"@.len()); }
    assert("Thunderstorm with Rain"@ != "Rain and Flurries"@) by { assert("Thunderstorm with Rain"@.len() != "Rain and Flurries"@.len()); }
    assert("Thunderstorm with Rain"@ != "Rain and Snow"@) by { assert("Thunderstorm with Rain"@.len() != "Rain and Snow"@.len()); }
    assert("Thunderstorm with Rain"@ != "Heavy Rain Shower and Flurries"@) by { assert("Thunderstorm with Rain"@.len() != "Heavy Rain Shower and Flurries"@.len()); }
    assert("Thunderstorm with Rain"@ != "Heavy Rain and Snow"@) by { assert("Thunderstorm with Rain"@.len() != "Heavy Rain and Snow"@.len()); }
    assert("Thunderstorm with Rain"@ != "Light Snow"@) by { assert("Thunderstorm with Rain"@.len() != "Light Snow"@.len()); }
    assert("Thunderstorm with Rain"@ != "Snow"@) by { assert("Thunderstorm with Rain"@.len() != "Snow"@.len()); }
    assert("Thunderstorm with Rain"@ != "Flurries"@) by { assert("Thunderstorm with Rain"@.len() != "Flurries"@.len()); }
    assert("Thunderstorm with Rain"@ != "Heavy Flurries"@) by { assert("Thunderstorm with Rain"@.len() != "Heavy Flurries"@.len()); }
    assert("Thunderstorm with Rain"@ != "Heavy Snow"@) by { assert("Thunderstorm with Rain"@.len() != "Heavy Snow"@.len()); }
    assert("Thunderstorm with Heavy Rain"@ != "Sunny"@) by { assert("Thunderstorm with Heavy Rain"@.len() != "Sunny"@.len()); }
    assert("Thunderstorm with Heavy Rain"@ != "Mainly Sunny"@) by { assert("Thunderstorm with Heavy Rain"@.len() != "Mainly Sunny"@.len()); }
    assert("Thunderstorm with Heavy Rain"@ != "Partly Cloudy"@) by { assert("Thunderstorm with Heavy Rain"@.len() != "Partly Cloudy"@.len()); }
    assert("Thunderstorm with Heavy Rain"@ != "Mostly Cloudy"@) by { assert("Thunderstorm with Heavy Rain"@.len() != "Mostly Cloudy"@.len()); }
    assert("Thunderstorm with Heavy Rain"@ != "Light Rain Shower"@) by { assert("Thunderstorm with Heavy Rain"@.len() != "Light Rain Shower"@.len()); }
    assert("Thunderstorm with Heavy Rain"@ != "Light Rain Shower and Flurries"@) by { assert("Thunderstorm with Heavy Rain"@.len() != "Light Rain Shower and Flurries"@.len()); }
    assert("Thunderstorm with Heavy Rain"@ != "Light Flurries"@) by { assert("Thunderstorm with Heavy Rain"@.len() != "Light Flurries"@.len()); }
    assert("Thunderstorm with Heavy Rain"@ != "Cloudy"@) by { assert("Thunderstorm with Heavy Rain"@.len() != "Cloudy"@.len()); }
    assert("Thunderstorm with Heavy Rain"@ != "Precipitation"@) by { assert("Thunderstorm with Heavy Rain"@.len() != "Precipitation"@.len()); }
    assert("Thunderstorm with Heavy Rain"@ != "Squalls"@) by { assert("Thunderstorm with Heavy Rain"@.len() != "Squalls"@.len()); }
    assert("Thunderstorm with Heavy Rain"@ != "Light Precipitation"@) by { assert("Thunderstorm with Heavy Rain"@.len() != "Light Precipitation"@.len()); }
    assert("Thunderstorm with Heavy Rain"@ != "Heavy Precipitation"@) by { assert("Thunderstorm with Heavy Rain"@.len() != "Heavy Precipitation"@.len()); }
    assert("Thunderstorm with Heavy Rain"@ != "Rain Shower"@) by { assert("Thunderstorm with Heavy Rain"@.len() != "Rain Shower"@.len()); }
    assert("Thunderstorm with Heavy Rain"@ != "Light Rain and Drizzle"@) by { assert("Thunderstorm with Heavy Rain"@.len() != "Light Rain and Drizzle"@.len()); }
    assert("Thunderstorm with Heavy Rain"@ != "Light Rain"@) by { assert("Thunderstorm with Heavy Rain"@.len() != "Light Rain"@.len()); }
    assert("Thunderstorm with Heavy Rain"@ != "Rain"@) by { assert("Thunderstorm with Heavy Rain"@.len() != "Rain"@.len()); }
    assert("Thunderstorm with Heavy Rain"@ != "Rain and Drizzle"@) by { assert("Thunderstorm with Heavy Rain"@.len() != "Rain and Drizzle"@.len()); }
    assert("Thunderstorm with Heavy Rain"@ != "Heavy Rain and Drizzle"@) by { assert("Thunderstorm with Heavy Rain"@.len() != "Heavy Rain and Drizzle"@.len()); }
    assert("Thunderstorm with Heavy Rain"@ != "Heavy Rain Shower"@) by { assert("Thunderstorm with Heavy Rain"@.len() != "Heavy Rain Shower"@.len()); }
    assert("Thunderstorm with Heavy Rain"@ != "Heavy Rain"@) by { assert("Thunderstorm with Heavy Rain"@.len() != "Heavy Rain"@.len()); }
    assert("Thunderstorm with Heavy Rain"@ != "Light Freezing Drizzle"@) by { assert("Thunderstorm with Heavy Rain"@.len() != "Light Freezing Drizzle"@.len()); }
    assert("Thunderstorm with Heavy Rain"@ != "Light Freezing Rain"@) by { assert("Thunderstorm with Heavy Rain"@.len() != "Light Freezing Rain"@.len()); }
    assert("Thunderstorm with Heavy Rain"@ != "Heavy Freezing Drizzle"@) by { assert("Thunderstorm with Heavy Rain"@.len() != "Heavy Freezing Drizzle"@.len()); }
    assert("Thunderstorm with Heavy Rain"@ != "Heavy Freezing Rain"@) by { assert("Thunderstorm with Heavy Rain"@.len() != "Heavy Freezing Rain"@.len()); }
    assert("Thunderstorm with Heavy Rain"@ != "Freezing Drizzle"@) by { assert("Thunderstorm with Heavy Rain"@.len() != "Freezing Drizzle"@.len()); }
    assert("Thunderstorm with Heavy Rain"@ != "Freezing Rain"@) by { assert("Thunderstorm with Heavy Rain"@.len() != "Freezing Rain"@.len()); }
    assert("Thunderstorm with Heavy Rain"@ != "Rain and Flurries"@) by { assert("Thunderstorm with Heavy Rain"@.len() != "Rain and Flurries"@.len()); }
    assert("Thunderstorm with Heavy Rain"@ != "Rain and Snow"@) by { assert("Thunderstorm with Heavy Rain"@.len() != "Rain and Snow"@.len()); }
    assert("Thunderstorm with Heavy Rain"@ != "Heavy Rain Shower and Flurries"@) by { assert("Thunderstorm with Heavy Rain"@.len() != "Heavy Rain Shower and Flurries"@.len()); }
    assert("Thunderstorm with Heavy Rain"@ != "Heavy Rain and Snow"@) by { assert("Thunderstorm with Heavy Rain"@.len() != "Heavy Rain and Snow"@.len()); }
    assert("Thunderstorm with Heavy Rain"@ != "Light Snow"@) by { assert("Thunderstorm with Heavy Rain"@.len() != "Light Snow"@.len()); }
    assert("Thunderstorm with Heavy Rain"@ != "Snow"@) by { assert("Thunderstorm with Heavy Rain"@.len() != "Snow"@.len()); }
    assert("Thunderstorm with Heavy Rain"@ != "Flurries"@) by { assert("Thunderstorm with Heavy Rain"@.len() != "Flurries"@.len()); }
    assert("Thunderstorm with Heavy Rain"@ != "Heavy Flurries"@) by { assert("Thunderstorm with Heavy Rain"@.len() != "Heavy Flurries"@.len()); }
    assert("Thunderstorm with Heavy Rain"@ != "Heavy Snow"@) by { assert("Thunderstorm with Heavy Rain"@.len() != "Heavy Snow"@.len()); }
    assert("Thunderstorm with Heavy Rain"@ != "Thunderstorm with Rain"@) by { assert("Thunderstorm with Heavy Rain"@.len() != "Thunderstorm with Rain"@.len()); }
    assert("Thunderstorm with Light Rain"@ != "Sunny"@) by { assert("Thunderstorm with Light Rain"@.len() != "Sunny"@.len()); }
    assert("Thunderstorm with Light Rain"@ != "Mainly Sunny"@) by { assert("Thunderstorm with Light Rain"@.len() != "Mainly Sunny"@.len()); }
    assert("Thunderstorm with Light Rain"@ != "Partly Cloudy"@) by { assert("Thunderstorm with Light Rain"@.len() != "Partly Cloudy"@.len()); }
    assert("Thunderstorm with Light Rain"@ != "Mostly Cloudy"@) by { assert("Thunderstorm with Light Rain"@.len() != "Mostly Cloudy"@.len()); }
    assert("Thunderstorm with Light Rain"@ != "Light Rain Shower"@) by { assert("Thunderstorm with Light Rain"@.len() != "Light Rain Shower"@.len()); }
    assert("Thunderstorm with Light Rain"@ != "Light Rain Shower and Flurries"@) by { assert("Thunderstorm with Light Rain"@.len() != "Light Rain Shower and Flurries"@.len()); }
    assert("Thunderstorm with Light Rain"@ != "Light Flurries"@) by { assert("Thunderstorm with Light Rain"@.len() != "Light Flurries"@.len()); }
    assert("Thunderstorm with Light Rain"@ != "Cloudy"@) by { assert("Thunderstorm with Light Rain"@.len() != "Cloudy"@.len()); }
    assert("Thunderstorm with Light Rain"@ != "Precipitation"@) by { assert("Thunderstorm with Light Rain"@.len() != "Precipitation"@.len()); }
    assert("Thunderstorm with Light Rain"@ != "Squalls"@) by { assert("Thunderstorm with Light Rain"@.len() != "Squalls"@.len()); }
    assert("Thunderstorm with Light Rain"@ != "Light Precipitation"@) by { assert("Thunderstorm with Light Rain"@.len() != "Light Precipitation"@.len()); }
    assert("Thunderstorm with Light Rain"@ != "Heavy Precipitation"@) by { assert("Thunderstorm with Light Rain"@.len() != "Heavy Precipitation"@.len()); }
    assert("Thunderstorm with Light Rain"@ != "Rain Shower"@) by { assert("Thunderstorm with Light Rain"@.len() != "Rain Shower"@.len()); }
    assert("Thunderstorm with Light Rain"@ != "Light Rain and Drizzle"@) by { assert("Thunderstorm with Light Rain"@.len() != "Light Rain and Drizzle"@.len()); }
    assert("Thunderstorm with Light Rain"@ != "Light Rain"@) by { assert("Thunderstorm with Light Rain"@.len() != "Light Rain"@.len()); }
    assert("Thunderstorm with Light Rain"@ != "Rain"@) by { assert("Thunderstorm with Light Rain"@.len() != "Rain"@.len()); }
    assert("Thunderstorm with Light Rain"@ != "Rain and Drizzle"@) by { assert("Thunderstorm with Light Rain"@.len() != "Rain and Drizzle"@.len()); }
    assert("Thunderstorm with Light Rain"@ != "Heavy Rain and Drizzle"@) by { assert("Thunderstorm with Light Rain"@.len() != "Heavy Rain and Drizzle"@.len()); }
    assert("Thunderstorm with Light Rain"@ != "Heavy Rain Shower"@) by { assert("Thunderstorm with Light Rain"@.len() != "Heavy Rain Shower"@.len()); }
    assert("Thunderstorm with Light Rain"@ != "Heavy Rain"@) by { assert("Thunderstorm with Light Rain"@.len() != "Heavy Rain"@.len()); }
    assert("Thunderstorm with Light Rain"@ != "Light Freezing Drizzle"@) by { assert("Thunderstorm with Light Rain"@.len() != "Light Freezing Drizzle"@.len()); }
    assert("Thunderstorm with Light Rain"@ != "Light Freezing Rain"@) by { assert("Thunderstorm with Light Rain"@.len() != "Light Freezing Rain"@.len()); }
    assert("Thunderstorm with Light Rain"@ != "Heavy Freezing Drizzle"@) by { assert("Thunderstorm with Light Rain"@.len() != "Heavy Freezing Drizzle"@.len()); }
    assert("Thunderstorm with Light Rain"@ != "Heavy Freezing Rain"@) by { assert("Thunderstorm with Light Rain"@.len() != "Heavy Freezing Rain"@.len()); }
    assert("Thunderstorm with Light Rain"@ != "Freezing Drizzle"@) by { assert("Thunderstorm with Light Rain"@.len() != "Freezing Drizzle"@.len()); }
    assert("Thunderstorm with Light Rain"@ != "Freezing Rain"@) by { assert("Thunderstorm with Light Rain"@.len() != "Freezing Rain"@.len()); }
    assert("Thunderstorm with Light Rain"@ != "Rain and Flurries"@) by { assert("Thunderstorm with Light Rain"@.len() != "Rain and Flurries"@.len()); }
    assert("Thunderstorm with Light Rain"@ != "Rain and Snow"@) by { assert("Thunderstorm with Light Rain"@.len() != "Rain and Snow"@.len()); }
    assert("Thunderstorm with Light Rain"@ != "Heavy Rain Shower and Flurries"@) by { assert("Thunderstorm with Light Rain"@.len() != "Heavy Rain Shower and Flurries"@.len()); }
    assert("Thunderstorm with Light Rain"@ != "Heavy Rain and Snow"@) by { assert("Thunderstorm with Light Rain"@.len() != "Heavy Rain and Snow"@.len()); }
    assert("Thunderstorm with Light Rain"@ != "Light Snow"@) by { assert("Thunderstorm with Light Rain"@.len() != "Light Snow"@.len()); }
    assert("Thunderstorm with Light Rain"@ != "Snow"@) by { assert("Thunderstorm with Light Rain"@.len() != "Snow"@.len()); }
    assert("Thunderstorm with Light Rain"@ != "Flurries"@) by { assert("Thunderstorm with Light Rain"@.len() != "Flurries"@.len()); }
    assert("Thunderstorm with Light Rain"@ != "Heavy Flurries"@) by { assert("Thunderstorm with Light Rain"@.len() != "Heavy Flurries"@.len()); }
    assert("Thunderstorm with Light Rain"@ != "Heavy Snow"@) by { assert("Thunderstorm with Light Rain"@.len() != "Heavy Snow"@.len()); }
    assert("Thunderstorm with Light Rain"@ != "Thunderstorm with Rain"@) by { assert("Thunderstorm with Light Rain"@.len() != "Thunderstorm with Rain"@.len()); }
    assert("Thunderstorm with Light Rain"@ != "Thunderstorm with Heavy Rain"@) by { assert("Thunderstorm with Light Rain"@[18] != "Thunderstorm with Heavy Rain"@[18]); }
    assert("Thunderstorm"@ != "Sunny"@) by { assert("Thunderstorm"@.len() != "Sunny"@.len()); }
    assert("Thunderstorm"@ != "Mainly Sunny"@) by { assert("Thunderstorm"@[0] != "Mainly Sunny"@[0]); }
    assert("Thunderstorm"@ != "Partly Cloudy"@) by { assert("Thunderstorm"@.len() != "Partly Cloudy"@.len()); }
    assert("Thunderstorm"@ != "Mostly Cloudy"@) by { assert("Thunderstorm"@.len() != "Mostly Cloudy"@.len()); }
    assert("Thunderstorm"@ != "Light Rain Shower"@) by { assert("Thunderstorm"@.len() != "Light Rain Shower"@.len()); }
    assert("Thunderstorm"@ != "Light Rain Shower and Flurries"@) by { assert("Thunderstorm"@.len() != "Light Rain Shower and Flurries"@.len()); }
    assert("Thunderstorm"@ != "Light Flurries"@) by { assert("Thunderstorm"@.len() != "Light Flurries"@.len()); }
    assert("Thunderstorm"@ != "Cloudy"@) by { assert("Thunderstorm"@.len() != "Cloudy"@.len()); }
    assert("Thunderstorm"@ != "Precipitation"@) by { assert("Thunderstorm"@.len() != "Precipitation"@.len()); }
    assert("Thunderstorm"@ != "Squalls"@) by { assert("Thunderstorm"@.len() != "Squalls"@.len()); }
    assert("Thunderstorm"@ != "Light Precipitation"@) by { assert("Thunderstorm"@.len() != "Light Precipitation"@.len()); }
    assert("Thunderstorm"@ != "Heavy Precipitation"@) by { assert("Thunderstorm"@.len() != "Heavy Precipitation"@.len()); }
    assert("Thunderstorm"@ != "Rain Shower"@) by { assert("Thunderstorm"@.len() != "Rain Shower"@.len()); }
    assert("Thunderstorm"@ != "Light Rain and Drizzle"@) by { assert("Thunderstorm"@.len() != "Light Rain and Drizzle"@.len()); }
    assert("Thunderstorm"@ != "Light Rain"@) by { assert("Thunderstorm"@.len() != "Light Rain"@.len()); }
    assert("Thunderstorm"@ != "Rain"@) by { assert("Thunderstorm"@.len() != "Rain"@.len()); }
    assert("Thunderstorm"@ != "Rain and Drizzle"@) by { assert("Thunderstorm"@.len() != "Rain and Drizzle"@.len()); }
    assert("Thunderstorm"@ != "Heavy Rain and Drizzle"@) by { assert("Thunderstorm"@.len() != "Heavy Rain and Drizzle"@.len()); }
    assert("Thunderstorm"@ != "Heavy Rain Shower"@) by { assert("Thunderstorm"@.len() != "Heavy Rain Shower"@.len()); }
    assert("Thunderstorm"@ != "Heavy Rain"@) by { assert("Thunderstorm"@.len() != "Heavy Rain"@.len()); }
    assert("Thunderstorm"@ != "Light Freezing Drizzle"@) by { assert("Thunderstorm"@.len() != "Light Freezing Drizzle"@.len()); }
    assert("Thunderstorm"@ != "Light Freezing Rain"@) by { assert("Thunderstorm"@.len() != "Light Freezing Rain"@.len()); }
    assert("Thunderstorm"@ != "Heavy Freezing Drizzle"@) by { assert("Thunderstorm"@.len() != "Heavy Freezing Drizzle"@.len()); }
    assert("Thunderstorm"@ != "Heavy Freezing Rain"@) by { assert("Thunderstorm"@.len() != "Heavy Freezing Rain"@.len()); }
    assert("Thunderstorm"@ != "Freezing Drizzle"@) by { assert("Thunderstorm"@.len() != "Freezing Drizzle"@.len()); }
    assert("Thunderstorm"@ != "Freezing Rain"@) by { assert("Thunderstorm"@.len() != "Freezing Rain"@.len()); }
    assert("Thunderstorm"@ != "Rain and Flurries"@) by { assert("Thunderstorm"@.len() != "Rain and Flurries"@.len()); }
    assert("Thunderstorm"@ != "Rain and Snow"@) by { assert("Thunderstorm"@.len() != "Rain and Snow"@.len()); }
    assert("Thunderstorm"@ != "Heavy Rain Shower and Flurries"@) by { assert("Thunderstorm"@.len() != "Heavy Rain Shower and Flurries"@.len()); }
    assert("Thunderstorm"@ != "Heavy Rain and Snow"@) by { assert("Thunderstorm"@.len() != "Heavy Rain and Snow"@.len()); }
    assert("Thunderstorm"@ != "Light Snow"@) by { assert("Thunderstorm"@.len() != "Light Snow"@.len()); }
    assert("Thunderstorm"@ != "Snow"@) by { assert("Thunderstorm"@.len() != "Snow"@.len()); }
    assert("Thunderstorm"@ != "Flurries"@) by { assert("Thunderstorm"@.len() != "Flurries"@.len()); }
    assert("Thunderstorm"@ != "Heavy Flurries"@) by { assert("Thunderstorm"@.len() != "Heavy Flurries"@.len()); }
    assert("Thunderstorm"@ != "Heavy Snow"@) by { assert("Thunderstorm"@.len() != "Heavy Snow"@.len()); }
    assert("Thunderstorm"@ != "Thunderstorm with Rain"@) by { assert("Thunderstorm"@.len() != "Thunderstorm with Rain"@.len()); }
    assert("Thunderstorm"@ != "Thunderstorm with Heavy Rain"@) by { assert("Thunderstorm"@.len() != "Thunderstorm with Heavy Rain"@.len()); }
    assert("Thunderstorm"@ != "Thunderstorm with Light Rain"@) by { assert("Thunderstorm"@.len() != "Thunderstorm with Light Rain"@.len()); }
    assert("Heavy Thunderstorm"@ != "Sunny"@) by { assert("Heavy Thunderstorm"@.len() != "Sunny"@.len()); }
    assert("Heavy Thunderstorm"@ != "Mainly Sunny"@) by { assert("Heavy Thunderstorm"@.len() != "Mainly Sunny"@.len()); }
    assert("Heavy Thunderstorm"@ != "Partly Cloudy"@) by { assert("Heavy Thunderstorm"@.len() != "Partly Cloudy"@.len()); }
    assert("Heavy Thunderstorm"@ != "Mostly Cloudy"@) by { assert("Heavy Thunderstorm"@.len() != "Mostly Cloudy"@.len()); }
    assert("Heavy Thunderstorm"@ != "Light Rain Shower"@) by { assert("Heavy Thunderstorm"@.len() != "Light Rain Shower"@.len()); }
    assert("Heavy Thunderstorm"@ != "Light Rain Shower and Flurries"@) by { assert("Heavy Thunderstorm"@.len() != "Light Rain Shower and Flurries"@.len()); }
    assert("Heavy Thunderstorm"@ != "Light Flurries"@) by { assert("Heavy Thunderstorm"@.len() != "Light Flurries"@.len()); }
    assert("Heavy Thunderstorm"@ != "Cloudy"@) by { assert("Heavy Thunderstorm"@.len() != "Cloudy"@.len()); }
    assert("Heavy Thunderstorm"@ != "Precipitation"@) by { assert("Heavy Thunderstorm"@.len() != "Precipitation"@.len()); }
    assert("Heavy Thunderstorm"@ != "Squalls"@) by { assert("Heavy Thunderstorm"@.len() != "Squalls"@.len()); }
    assert("Heavy Thunderstorm"@ != "Light Precipitation"@) by { assert("Heavy Thunderstorm"@.len() != "Light Precipitation"@.len()); }
    assert("Heavy Thunderstorm"@ != "Heavy Precipitation"@) by { assert("Heavy Thunderstorm"@.len() != "Heavy Precipitation"@.len()); }
    assert("Heavy Thunderstorm"@ != "Rain Shower"@) by { assert("Heavy Thunderstorm"@.len() != "Rain Shower"@.len()); }
    assert("Heavy Thunderstorm"@ != "Light Rain and Drizzle"@) by { assert("Heavy Thunderstorm"@.len() != "Light Rain and Drizzle"@.len()); }
    assert("Heavy Thunderstorm"@ != "Light Rain"@) by { assert("Heavy Thunderstorm"@.len() != "Light Rain"@.len()); }
    assert("Heavy Thunderstorm"@ != "Rain"@) by { assert("Heavy Thunderstorm"@.len() != "Rain"@.len()); }
    assert("Heavy Thunderstorm"@ != "Rain and Drizzle"@) by { assert("Heavy Thunderstorm"@.len() != "Rain and Drizzle"@.len()); }
    assert("Heavy Thunderstorm"@ != "Heavy Rain and Drizzle"@) by { assert("Heavy Thunderstorm"@.len() != "Heavy Rain and Drizzle"@.len()); }
    assert("Heavy Thunderstorm"@ != "Heavy Rain Shower"@) by { assert("Heavy Thunderstorm"@.len() != "Heavy Rain Shower"@.len()); }
    assert("Heavy Thunderstorm"@ != "Heavy Rain"@) by { assert("Heavy Thunderstorm"@.len() != "Heavy Rain"@.len()); }
    assert("Heavy Thunderstorm"@ != "Light Freezing Drizzle"@) by { assert("Heavy Thunderstorm"@.len() != "Light Freezing Drizzle"@.len()); }
    assert("Heavy Thunderstorm"@ != "Light Freezing Rain"@) by { assert("Heavy Thunderstorm"@.len() != "Light Freezing Rain"@.len()); }
    assert("Heavy Thunderstorm"@ != "Heavy Freezing Drizzle"@) by { assert("Heavy Thunderstorm"@.len() != "Heavy Freezing Drizzle"@.len()); }
    assert("Heavy Thunderstorm"@ != "Heavy Freezing Rain"@) by { assert("Heavy Thunderstorm"@.len() != "Heavy Freezing Rain"@.len()); }
    assert("Heavy Thunderstorm"@ != "Freezing Drizzle"@) by { assert("Heavy Thunderstorm"@.len() != "Freezing Drizzle"@.len()); }
    assert("Heavy Thunderstorm"@ != "Freezing Rain"@) by { assert("Heavy Thunderstorm"@.len() != "Freezing Rain"@.len()); }
    assert("Heavy Thunderstorm"@ != "Rain and Flurries"@) by { assert("Heavy Thunderstorm"@.len() != "Rain and Flurries"@.len()); }
    assert("Heavy Thunderstorm"@ != "Rain and Snow"@) by { assert("Heavy Thunderstorm"@.len() != "Rain and Snow"@.len()); }
    assert("Heavy Thunderstorm"@ != "Heavy Rain Shower and Flurries"@) by { assert("Heavy Thunderstorm"@.len() != "Heavy Rain Shower and Flurries"@.len()); }
    assert("Heavy Thunderstorm"@ != "Heavy Rain and Snow"@) by { assert("Heavy Thunderstorm"@.len() != "Heavy Rain and Snow"@.len()); }
    assert("Heavy Thunderstorm"@ != "Light Snow"@) by { assert("Heavy Thunderstorm"@.len() != "Light Snow"@.len()); }
    assert("Heavy Thunderstorm"@ != "Snow"@) by { assert("Heavy Thunderstorm"@.len() != "Snow"@.len()); }
    assert("Heavy Thunderstorm"@ != "Flurries"@) by { assert("Heavy Thunderstorm"@.len() != "Flurries"@.len()); }
    assert("Heavy Thunderstorm"@ != "Heavy Flurries"@) by { assert("Heavy Thunderstorm"@.len() != "Heavy Flurries"@.len()); }
    assert("Heavy Thunderstorm"@ != "Heavy Snow"@) by { assert("Heavy Thunderstorm"@.len() != "Heavy Snow"@.len()); }
    assert("Heavy Thunderstorm"@ != "Thunderstorm with Rain"@) by { assert("Heavy Thunderstorm"@.len() != "Thunderstorm with Rain"@.len()); }
    assert("Heavy Thunderstorm"@ != "Thunderstorm with Heavy Rain"@) by { assert("Heavy Thunderstorm"@.len() != "Thunderstorm with Heavy Rain"@.len()); }
    assert("Heavy Thunderstorm"@ != "Thunderstorm with Light Rain"@) by { assert("Heavy Thunderstorm"@.len() != "Thunderstorm with Light Rain"@.len()); }
    assert("Heavy Thunderstorm"@ != "Thunderstorm"@) by { assert("Heavy Thunderstorm"@.len() != "Thunderstorm"@.len()); }
}

proof fn lemma_condition_table_5()
    ensures
        spec_condition_mapper("Heavy Thunderstorm with Rain"@) == Conditions::Thunderstorm,
        spec_condition_mapper("Haze"@) == Conditions::Fog,
        spec_condition_mapper("Fog"@) == Conditions::Fog,
        spec_condition_mapper("Ice Fog"@) == Conditions::Fog,
        spec_condition_mapper("Fog Patches"@) == Conditions::Fog,
        spec_condition_mapper("Shallow Fog"@) == Conditions::Fog,
        spec_condition_mapper("Mist"@) == Conditions::Fog,
        spec_condition_mapper("Drifting Snow"@) == Conditions::LightSnow,
        spec_condition_mapper("Ice Crystals"@) == Conditions::LightSnow,
        spec_condition_mapper("Snow Pellets"@) == Conditions::LightFreezingRain,
{
    reveal_strlit("Sunny");
    reveal_strlit("Mainly Sunny");
    reveal_strlit("Partly Cloudy");
    reveal_strlit("Mostly Cloudy");
    reveal_strlit("Light Rain Shower");
    reveal_strlit("Light Rain Shower and Flurries");
    reveal_strlit("Light Flurries");
    reveal_strlit("Cloudy");
    reveal_strlit("Precipitation");
    reveal_strlit("Squalls");
    reveal_strlit("Light Precipitation");
    reveal_strlit("Heavy Precipitation");
    reveal_strlit("Rain Shower");
    reveal_strlit("Light Rain and Drizzle");
    reveal_strlit("Light Rain");
    reveal_strlit("Rain");
    reveal_strlit("Rain and Drizzle");
    reveal_strlit("Heavy Rain and Drizzle");
    reveal_strlit("Heavy Rain Shower");
    reveal_strlit("Heavy Rain");
    reveal_strlit("Light Freezing Drizzle");
    reveal_strlit("Light Freezing Rain");
    reveal_strlit("Heavy Freezing Drizzle");
    reveal_strlit("Heavy Freezing Rain");
    reveal_strlit("Freezing Drizzle");
    reveal_strlit("Freezing Rain");
    reveal_strlit("Rain and Flurries");
    reveal_strlit("Rain and Snow");
    reveal_strlit("Heavy Rain Shower and Flurries");
    reveal_strlit("Heavy Rain and Snow");
    reveal_strlit("Light Snow");
    reveal_strlit("Snow");
    reveal_strlit("Flurries");
    reveal_strlit("Heavy Flurries");
    reveal_strlit("Heavy Snow");
    reveal_strlit("Thunderstorm with Rain");
    reveal_strlit("Thunderstorm with Heavy Rain");
    reveal_strlit("Thunderstorm with Light Rain");
    reveal_strlit("Thunderstorm");
    reveal_strlit("Heavy Thunderstorm");
    reveal_strlit("Heavy Thunderstorm with Rain");
    reveal_strlit("Haze");
    reveal_strlit("Fog");
    reveal_strlit("Ice Fog");
    reveal_strlit("Fog Patches");
    reveal_strlit("Shallow Fog");
    reveal_strlit("Mist");
    reveal_strlit("Drifting Snow");
    reveal_strlit("Ice Crystals");
    reveal_strlit("Snow Pellets");
    assert("Heavy Thunderstorm with Rain"@ != "Sunny"@) by { assert("Heavy Thunderstorm with Rain"@.len() != "Sunny"@.len()); }
    assert("Heavy Thunderstorm with Rain"@ != "Mainly Sunny"@) by { assert("Heavy Thunderstorm with Rain"@.len() != "Mainly Sunny"@.len()); }
    assert("Heavy Thunderstorm with Rain"@ != "Partly Cloudy"@) by { assert("Heavy Thunderstorm with Rain"@.len() != "Partly Cloudy"@.len()); }
    assert("Heavy Thunderstorm with Rain"@ != "Mostly Cloudy"@) by { assert("Heavy Thunderstorm with Rain"@.len() != "Mostly Cloudy"@.len()); }
    assert("Heavy Thunderstorm with Rain"@ != "Light Rain Shower"@) by { assert("Heavy Thunderstorm with Rain"@.len() != "Light Rain Shower"@.len()); }
    assert("Heavy Thunderstorm with Rain"@ != "Light Rain Shower and Flurries"@) by { assert("Heavy Thunderstorm with Rain"@.len() != "Light Rain Shower and Flurries"@.len()); }
    assert("Heavy Thunderstorm with Rain"@ != "Light Flurries"@) by { assert("Heavy Thunderstorm with Rain"@.len() != "Light Flurries"@.len()); }
    assert("Heavy Thunderstorm with Rain"@ != "Cloudy"@) by { assert("Heavy Thunderstorm with Rain"@.len() != "Cloudy"@.len()); }
    assert("Heavy Thunderstorm with Rain"@ != "Precipitation"@) by { assert("Heavy Thunderstorm with Rain"@.len() != "Precipitation"@.len()); }
    assert("Heavy Thunderstorm with Rain"@ != "Squalls"@) by { assert("Heavy Thunderstorm with Rain"@.len() != "Squalls"@.len()); }
    assert("Heavy Thunderstorm with Rain"@ != "Light Precipitation"@) by { assert("Heavy Thunderstorm with Rain"@.len() != "Light Precipitation"@.len()); }
    assert("Heavy Thunderstorm with Rain"@ != "Heavy Precipitation"@) by { assert("Heavy Thunderstorm with Rain"@.len() != "Heavy Precipitation"@.len()); }
    assert("Heavy Thunderstorm with Rain"@ != "Rain Shower"@) by { assert("Heavy Thunderstorm with Rain"@.len() != "Rain Shower"@.len()); }
    assert("Heavy Thunderstorm with Rain"@ != "Light Rain and Drizzle"@) by { assert("Heavy Thunderstorm with Rain"@.len() != "Light Rain and Drizzle"@.len()); }
    assert("Heavy Thunderstorm with Rain"@ != "Light Rain"@) by { assert("Heavy Thunderstorm with Rain"@.len() != "Light Rain"@.len()); }
    assert("Heavy Thunderstorm with Rain"@ != "Rain"@) by { assert("Heavy Thunderstorm with Rain"@.len() != "Rain"@.len()); }
    assert("Heavy Thunderstorm with Rain"@ != "Rain and Drizzle"@) by { assert("Heavy Thunderstorm with Rain"@.len() != "Rain and Drizzle"@.len()); }
    assert("Heavy Thunderstorm with Rain"@ != "Heavy Rain and Drizzle"@) by { assert("Heavy Thunderstorm with Rain"@.len() != "Heavy Rain and Drizzle"@.len()); }
    assert("Heavy Thunderstorm with Rain"@ != "Heavy Rain Shower"@) by { assert("Heavy Thunderstorm with Rain"@.len() != "Heavy Rain Shower"@.len()); }
    assert("Heavy Thunderstorm with Rain"@ != "Heavy Rain"@) by { assert("Heavy Thunderstorm with Rain"@.len() != "Heavy Rain"@.len()); }
    assert("Heavy Thunderstorm with Rain"@ != "Light Freezing Drizzle"@) by { assert("Heavy Thunderstorm with Rain"@.len() != "Light Freezing Drizzle"@.len()); }
    assert("Heavy Thunderstorm with Rain"@ != "Light Freezing Rain"@) by { assert("Heavy Thunderstorm with Rain"@.len() != "Light Freezing Rain"@.len()); }
    assert("Heavy Thunderstorm with Rain"@ != "Heavy Freezing Drizzle"@) by { assert("Heavy Thunderstorm with Rain"@.len() != "Heavy Freezing Drizzle"@.len()); }
    assert("Heavy Thunderstorm with Rain"@ != "Heavy Freezing Rain"@) by { assert("Heavy Thunderstorm with Rain"@.len() != "Heavy Freezing Rain"@.len()); }
    assert("Heavy Thunderstorm with Rain"@ != "Freezing Drizzle"@) by { assert("Heavy Thunderstorm with Rain"@.len() != "Freezing Drizzle"@.len()); }
    assert("Heavy Thunderstorm with Rain"@ != "Freezing Rain"@) by { assert("Heavy Thunderstorm with Rain"@.len() != "Freezing Rain"@.len()); }
    assert("Heavy Thunderstorm with Rain"@ != "Rain and Flurries"@) by { assert("Heavy Thunderstorm with Rain"@.len() != "Rain and Flurries"@.len()); }
    assert("Heavy Thunderstorm with Rain"@ != "Rain and Snow"@) by { assert("Heavy Thunderstorm with Rain"@.len() != "Rain and Snow"@.len()); }
    assert("Heavy Thunderstorm with Rain"@ != "Heavy Rain Shower and Flurries"@) by { assert("Heavy Thunderstorm with Rain"@.len() != "Heavy Rain Shower and Flurries"@.len()); }
    assert("Heavy Thunderstorm with Rain"@ != "Heavy Rain and Snow"@) by { assert("Heavy Thunderstorm with Rain"@.len() != "Heavy Rain and Snow"@.len()); }
    assert("Heavy Thunderstorm with Rain"@ != "Light Snow"@) by { assert("Heavy Thunderstorm with Rain"@.len() != "Light Snow"@.len()); }
    assert("Heavy Thunderstorm with Rain"@ != "Snow"@) by { assert("Heavy Thunderstorm with Rain"@.len() != "Snow"@.len()); }
    assert("Heavy Thunderstorm with Rain"@ != "Flurries"@) by { assert("Heavy Thunderstorm with Rain"@.len() != "Flurries"@.len()); }
    assert("Heavy Thunderstorm with Rain"@ != "Heavy Flurries"@) by { assert("Heavy Thunderstorm with Rain"@.len() != "Heavy Flurries"@.len()); }
    assert("Heavy Thunderstorm with Rain"@ != "Heavy Snow"@) by { assert("Heavy Thunderstorm with Rain"@.len() != "Heavy Snow"@.len()); }
    assert("Heavy Thunderstorm with Rain"@ != "Thunderstorm with Rain"@) by { assert("Heavy Thunderstorm with Rain"@.len() != "Thunderstorm with Rain"@.len()); }
    assert("Heavy Thunderstorm with Rain"@ != "Thunderstorm with Heavy Rain"@) by { assert("Heavy Thunderstorm with Rain"@[0] != "Thunderstorm with Heavy Rain"@[0]); }
    assert("Heavy Thunderstorm with Rain"@ != "Thunderstorm with Light Rain"@) by { assert("Heavy Thunderstorm with Rain"@[0] != "Thunderstorm with Light Rain"@[0]); }
    assert("Heavy Thunderstorm with Rain"@ != "Thunderstorm"@) by { assert("Heavy Thunderstorm with Rain"@.len() != "Thunderstorm"@.len()); }
    assert("Heavy Thunderstorm with Rain"@ != "Heavy Thunderstorm"@) by { assert("Heavy Thunderstorm with Rain"@.len() != "Heavy Thunderstorm"@.len()); }
    assert("Haze"@ != "Sunny"@) by { assert("Haze"@.len() != "Sunny"@.len()); }
    assert("Haze"@ != "Mainly Sunny"@) by { assert("Haze"@.len() != "Mainly Sunny"@.len()); }
    assert("Haze"@ != "Partly Cloudy"@) by { assert("Haze"@.len() != "Partly Cloudy"@.len()); }
    assert("Haze"@ != "Mostly Cloudy"@) by { assert("Haze"@.len() != "Mostly Cloudy"@.len()); }
    assert("Haze"@ != "Light Rain Shower"@) by { assert("Haze"@.len() != "Light Rain Shower"@.len()); }
    assert("Haze"@ != "Light Rain Shower and Flurries"@) by { assert("Haze"@.len() != "Light Rain Shower and Flurries"@.len()); }
    assert("Haze"@ != "Light Flurries"@) by { assert("Haze"@.len() != "Light Flurries"@.len()); }
    assert("Haze"@ != "Cloudy"@) by { assert("Haze"@.len() != "Cloudy"@.len()); }
    assert("Haze"@ != "Precipitation"@) by { assert("Haze"@.len() != "Precipitation"@.len()); }
    assert("Haze"@ != "Squalls"@) by { assert("Haze"@.len() != "Squalls"@.len()); }
    assert("Haze"@ != "Light Precipitation"@) by { assert("Haze"@.len() != "Light Precipitation"@.len()); }
    assert("Haze"@ != "Heavy Precipitation"@) by { assert("Haze"@.len() != "Heavy Precipitation"@.len()); }
    assert("Haze"@ != "Rain Shower"@) by { assert("Haze"@.len() != "Rain Shower"@.len()); }
    assert("Haze"@ != "Light Rain and Drizzle"@) by { assert("Haze"@.len() != "Light Rain and Drizzle"@.len()); }
    assert("Haze"@ != "Light Rain"@) by { assert("Haze"@.len() != "Light Rain"@.len()); }
    assert("Haze"@ != "Rain"@) by { assert("Haze"@[0] != "Rain"@[0]); }
    assert("Haze"@ != "Rain and Drizzle"@) by { assert("Haze"@.len() != "Rain and Drizzle"@.len()); }
    assert("Haze"@ != "Heavy Rain and Drizzle"@) by { assert("Haze"@.len() != "Heavy Rain and Drizzle"@.len()); }
    assert("Haze"@ != "Heavy Rain Shower"@) by { assert("Haze"@.len() != "Heavy Rain Shower"@.len()); }
    assert("Haze"@ != "Heavy Rain"@) by { assert("Haze"@.len() != "Heavy Rain"@.len()); }
    assert("Haze"@ != "Light Freezing Drizzle"@) by { assert("Haze"@.len() != "Light Freezing Drizzle"@.len()); }
    assert("Haze"@ != "Light Freezing Rain"@) by { assert("Haze"@.len() != "Light Freezing Rain"@.len()); }
    assert("Haze"@ != "Heavy Freezing Drizzle"@) by { assert("Haze"@.len() != "Heavy Freezing Drizzle"@.len()); }
    assert("Haze"@ != "Heavy Freezing Rain"@) by { assert("Haze"@.len() != "Heavy Freezing Rain"@.len()); }
    assert("Haze"@ != "Freezing Drizzle"@) by { assert("Haze"@.len() != "Freezing Drizzle"@.len()); }
    assert("Haze"@ != "Freezing Rain"@) by { assert("Haze"@.len() != "Freezing Rain"@.len()); }
    assert("Haze"@ != "Rain and Flurries"@) by { assert("Haze"@.len() != "Rain and Flurries"@.len()); }
    assert("Haze"@ != "Rain and Snow"@) by { assert("Haze"@.len() != "Rain and Snow"@.len()); }
    assert("Haze"@ != "Heavy Rain Shower and Flurries"@) by { assert("Haze"@.len() != "Heavy Rain Shower and Flurries"@.len()); }
    assert("Haze"@ != "Heavy Rain and Snow"@) by { assert("Haze"@.len() != "Heavy Rain and Snow"@.len()); }
    assert("Haze"@ != "Light Snow"@) by { assert("Haze"@.len() != "Light Snow"@.len()); }
    assert("Haze"@ != "Snow"@) by { assert("Haze"@[0] != "Snow"@[0]); }
    assert("Haze"@ != "Flurries"@) by { assert("Haze"@.len() != "Flurries"@.len()); }
    assert("Haze"@ != "Heavy Flurries"@) by { assert("Haze"@.len() != "Heavy Flurries"@.len()); }
    assert("Haze"@ != "Heavy Snow"@) by { assert("Haze"@.len() != "Heavy Snow"@.len()); }
    assert("Haze"@ != "Thunderstorm with Rain"@) by { assert("Haze"@.len() != "Thunderstorm with Rain"@.len()); }
    assert("Haze"@ != "Thunderstorm with Heavy Rain"@) by { assert("Haze"@.len() != "Thunderstorm with Heavy Rain"@.len()); }
    assert("Haze"@ != "Thunderstorm with Light Rain"@) by { assert("Haze"@.len() != "Thunderstorm with Light Rain"@.len()); }
    assert("Haze"@ != "Thunderstorm"@) by { assert("Haze"@.len() != "Thunderstorm"@.len()); }
    assert("Haze"@ != "Heavy Thunderstorm"@) by { assert("Haze"@.len() != "Heavy Thunderstorm"@.len()); }
    assert("Haze"@ != "Heavy Thunderstorm with Rain"@) by { assert("Haze"@.len() != "Heavy Thunderstorm with Rain"@.len()); }
    assert("Fog"@ != "Sunny"@) by { assert("Fog"@.len() != "Sunny"@.len()); }
    assert("Fog"@ != "Mainly Sunny"@) by { assert("Fog"@.len() != "Mainly Sunny"@.len()); }
    assert("Fog"@ != "Partly Cloudy"@) by { assert("Fog"@.len() != "Partly Cloudy"@.len()); }
    assert("Fog"@ != "Mostly Cloudy"@) by { assert("Fog"@.len() != "Mostly Cloudy"@.len()); }
    assert("Fog"@ != "Light Rain Shower"@) by { assert("Fog"@.len() != "Light Rain Shower"@.len()); }
    assert("Fog"@ != "Light Rain Shower and Flurries"@) by { assert("Fog"@.len() != "Light Rain Shower and Flurries"@.len()); }
    assert("Fog"@ != "Light Flurries"@) by { assert("Fog"@.len() != "Light Flurries"@.len()); }
    assert("Fog"@ != "Cloudy"@) by { assert("Fog"@.len() != "Cloudy"@.len()); }
    assert("Fog"@ != "Precipitation"@) by { assert("Fog"@.len() != "Precipitation"@.len()); }
    assert("Fog"@ != "Squalls"@) by { assert("Fog"@.len() != "Squalls"@.len()); }
    assert("Fog"@ != "Light Precipitation"@) by { assert("Fog"@.len() != "Light Precipitation"@.len()); }
    assert("Fog"@ != "Heavy Precipitation"@) by { assert("Fog"@.len() != "Heavy Precipitation"@.len()); }
    assert("Fog"@ != "Rain Shower"@) by { assert("Fog"@.len() != "Rain Shower"@.len()); }
    assert("Fog"@ != "Light Rain and Drizzle"@) by { assert("Fog"@.len() != "Light Rain and Drizzle"@.len()); }
    assert("Fog"@ != "Light Rain"@) by { assert("Fog"@.len() != "Light Rain"@.len()); }
    assert("Fog"@ != "Rain"@) by { assert("Fog"@.len() != "Rain"@.len()); }
    assert("Fog"@ != "Rain and Drizzle"@) by { assert("Fog"@.len() != "Rain and Drizzle"@.len()); }
    assert("Fog"@ != "Heavy Rain and Drizzle"@) by { assert("Fog"@.len() != "Heavy Rain and Drizzle"@.len()); }
    assert("Fog"@ != "Heavy Rain Shower"@) by { assert("Fog"@.len() != "Heavy Rain Shower"@.len()); }
    assert("Fog"@ != "Heavy Rain"@) by { assert("Fog"@.len() != "Heavy Rain"@.len()); }
    assert("Fog"@ != "Light Freezing Drizzle"@) by { assert("Fog"@.len() != "Light Freezing Drizzle"@.len()); }
    assert("Fog"@ != "Light Freezing Rain"@) by { assert("Fog"@.len() != "Light Freezing Rain"@.len()); }
    assert("Fog"@ != "Heavy Freezing Drizzle"@) by { assert("Fog"@.len() != "Heavy Freezing Drizzle"@.len()); }
    assert("Fog"@ != "Heavy Freezing Rain"@) by { assert("Fog"@.len() != "Heavy Freezing Rain"@.len()); }
    assert("Fog"@ != "Freezing Drizzle"@) by { assert("Fog"@.len() != "Freezing Drizzle"@.len()); }
    assert("Fog"@ != "Freezing Rain"@) by { assert("Fog"@.len() != "Freezing Rain"@.len()); }
    assert("Fog"@ != "Rain and Flurries"@) by { assert("Fog"@.len() != "Rain and Flurries"@.len()); }
    assert("Fog"@ != "Rain and Snow"@) by { assert("Fog"@.len() != "Rain and Snow"@.len()); }
    assert("Fog"@ != "Heavy Rain Shower and Flurries"@) by { assert("Fog"@.len() != "Heavy Rain Shower and Flurries"@.len()); }
    assert("Fog"@ != "Heavy Rain and Snow"@) by { assert("Fog"@.len() != "Heavy Rain and Snow"@.len()); }
    assert("Fog"@ != "Light Snow"@) by { assert("Fog"@.len() != "Light Snow"@.len()); }
    assert("Fog"@ != "Snow"@) by { assert("Fog"@.len() != "Snow"@.len()); }
    assert("Fog"@ != "Flurries"@) by { assert("Fog"@.len() != "Flurries"@.len()); }
    assert("Fog"@ != "Heavy Flurries"@) by { assert("Fog"@.len() != "Heavy Flurries"@.len()); }
    assert("Fog"@ != "Heavy Snow"@) by { assert("Fog"@.len() != "Heavy Snow"@.len()); }
    assert("Fog"@ != "Thunderstorm with Rain"@) by { assert("Fog"@.len() != "Thunderstorm with Rain"@.len()); }
    assert("Fog"@ != "Thunderstorm with Heavy Rain"@) by { assert("Fog"@.len() != "Thunderstorm with Heavy Rain"@.len()); }
    assert("Fog"@ != "Thunderstorm with Light Rain"@) by { assert("Fog"@.len() != "Thunderstorm with Light Rain"@.len()); }
    assert("Fog"@ != "Thunderstorm"@) by { assert("Fog"@.len() != "Thunderstorm"@.len()); }
    assert("Fog"@ != "Heavy Thunderstorm"@) by { assert("Fog"@.len() != "Heavy Thunderstorm"@.len()); }
    assert("Fog"@ != "Heavy Thunderstorm with Rain"@) by { assert("Fog"@.len() != "Heavy Thunderstorm with Rain"@.len()); }
    assert("Fog"@ != "Haze"@) by { assert("Fog"@.len() != "Haze"@.len()); }
    assert("Ice Fog"@ != "Sunny"@) by { assert("Ice Fog"@.len() != "Sunny"@.len()); }
    assert("Ice Fog"@ != "Mainly Sunny"@) by { assert("Ice Fog"@.len() != "Mainly Sunny"@.len()); }
    assert("Ice Fog"@ != "Partly Cloudy"@) by { assert("Ice Fog"@.len() != "Partly Cloudy"@.len()); }
    assert("Ice Fog"@ != "Mostly Cloudy"@) by { assert("Ice Fog"@.len() != "Mostly Cloudy"@.len()); }
    assert("Ice Fog"@ != "Light Rain Shower"@) by { assert("Ice Fog"@.len() != "Light Rain Shower"@.len()); }
    assert("Ice Fog"@ != "Light Rain Shower and Flurries"@) by { assert("Ice Fog"@.len() != "Light Rain Shower and Flurries"@.len()); }
    assert("Ice Fog"@ != "Light Flurries"@) by { assert("Ice Fog"@.len() != "Light Flurries"@.len()); }
    assert("Ice Fog"@ != "Cloudy"@) by { assert("Ice Fog"@.len() != "Cloudy"@.len()); }
    assert("Ice Fog"@ != "Precipitation"@) by { assert("Ice Fog"@.len() != "Precipitation"@.len()); }
    assert("Ice Fog"@ != "Squalls"@) by { assert("Ice Fog"@[0] != "Squalls"@[0]); }
    assert("Ice Fog"@ != "Light Precipitation"@) by { assert("Ice Fog"@.len() != "Light Precipitation"@.len()); }
    assert("Ice Fog"@ != "Heavy Precipitation"@) by { assert("Ice Fog"@.len() != "Heavy Precipitation"@.len()); }
    assert("Ice Fog"@ != "Rain Shower"@) by { assert("Ice Fog"@.len() != "Rain Shower"@.len()); }
    assert("Ice Fog"@ != "Light Rain and Drizzle"@) by { assert("Ice Fog"@.len() != "Light Rain and Drizzle"@.len()); }
    assert("Ice Fog"@ != "Light Rain"@) by { assert("Ice Fog"@.len() != "Light Rain"@.len()); }
    assert("Ice Fog"@ != "Rain"@) by { assert("Ice Fog"@.len() != "Rain"@.len()); }
    assert("Ice Fog"@ != "Rain and Drizzle"@) by { assert("Ice Fog"@.len() != "Rain and Drizzle"@.len()); }
    assert("Ice Fog"@ != "Heavy Rain and Drizzle"@) by { assert("Ice Fog"@.len() != "Heavy Rain and Drizzle"@.len()); }
    assert("Ice Fog"@ != "Heavy Rain Shower"@) by { assert("Ice Fog"@.len() != "Heavy Rain Shower"@.len()); }
    assert("Ice Fog"@ != "Heavy Rain"@) by { assert("Ice Fog"@.len() != "Heavy Rain"@.len()); }
    assert("Ice Fog"@ != "Light Freezing Drizzle"@) by { assert("Ice Fog"@.len() != "Light Freezing Drizzle"@.len()); }
    assert("Ice Fog"@ != "Light Freezing Rain"@) by { assert("Ice Fog"@.len() != "Light Freezing Rain"@.len()); }
    assert("Ice Fog"@ != "Heavy Freezing Drizzle"@) by { assert("Ice Fog"@.len() != "Heavy Freezing Drizzle"@.len()); }
    assert("Ice Fog"@ != "Heavy Freezing Rain"@) by { assert("Ice Fog"@.len() != "Heavy Freezing Rain"@.len()); }
    assert("Ice Fog"@ != "Freezing Drizzle"@) by { assert("Ice Fog"@.len() != "Freezing Drizzle"@.len()); }
    assert("Ice Fog"@ != "Freezing Rain"@) by { assert("Ice Fog"@.len() != "Freezing Rain"@.len()); }
    assert("Ice Fog"@ != "Rain and Flurries"@) by { assert("Ice Fog"@.len() != "Rain and Flurries"@.len()); }
    assert("Ice Fog"@ != "Rain and Snow"@) by { assert("Ice Fog"@.len() != "Rain and Snow"@.len()); }
    assert("Ice Fog"@ != "Heavy Rain Shower and Flurries"@) by { assert("Ice Fog"@.len() != "Heavy Rain Shower and Flurries"@.len()); }
    assert("Ice Fog"@ != "Heavy Rain and Snow"@) by { assert("Ice Fog"@.len() != "Heavy Rain and Snow"@.len()); }
    assert("Ice Fog"@ != "Light Snow"@) by { assert("Ice Fog"@.len() != "Light Snow"@.len()); }
    assert("Ice Fog"@ != "Snow"@) by { assert("Ice Fog"@.len() != "Snow"@.len()); }
    assert("Ice Fog"@ != "Flurries"@) by { assert("Ice Fog"@.len() != "Flurries"@.len()); }
    assert("Ice Fog"@ != "Heavy Flurries"@) by { assert("Ice Fog"@.len() != "Heavy Flurries"@.len()); }
    assert("Ice Fog"@ != "Heavy Snow"@) by { assert("Ice Fog"@.len() != "Heavy Snow"@.len()); }
    assert("Ice Fog"@ != "Thunderstorm with Rain"@) by { assert("Ice Fog"@.len() != "Thunderstorm with Rain"@.len()); }
    assert("Ice Fog"@ != "Thunderstorm with Heavy Rain"@) by { assert("Ice Fog"@.len() != "Thunderstorm with Heavy Rain"@.len()); }
    assert("Ice Fog"@ != "Thunderstorm with Light Rain"@) by { assert("Ice Fog"@.len() != "Thunderstorm with Light Rain"@.len()); }
    assert("Ice Fog"@ != "Thunderstorm"@) by { assert("Ice Fog"@.len() != "Thunderstorm"@.len()); }
    assert("Ice Fog"@ != "Heavy Thunderstorm"@) by { assert("Ice Fog"@.len() != "Heavy Thunderstorm"@.len()); }
    assert("Ice Fog"@ != "Heavy Thunderstorm with Rain"@) by { assert("Ice Fog"@.len() != "Heavy Thunderstorm with Rain"@.len()); }
    assert("Ice Fog"@ != "Haze"@) by { assert("Ice Fog"@.len() != "Haze"@.len()); }
    assert("Ice Fog"@ != "Fog"@) by { assert("Ice Fog"@.len() != "Fog"@.len()); }
    assert("Fog Patches"@ != "Sunny"@) by { assert("Fog Patches"@.len() != "Sunny"@.len()); }
    assert("Fog Patches"@ != "Mainly Sunny"@) by { assert("Fog Patches"@.len() != "Mainly Sunny"@.len()); }
    assert("Fog Patches"@ != "Partly Cloudy"@) by { assert("Fog Patches"@.len() != "Partly Cloudy"@.len()); }
    assert("Fog Patches"@ != "Mostly Cloudy"@) by { assert("Fog Patches"@.len() != "Mostly Cloudy"@.len()); }
    assert("Fog Patches"@ != "Light Rain Shower"@) by { assert("Fog Patches"@.len() != "Light Rain Shower"@.len()); }
    assert("Fog Patches"@ != "Light Rain Shower and Flurries"@) by { assert("Fog Patches"@.len() != "Light Rain Shower and Flurries"@.len()); }
    assert("Fog Patches"@ != "Light Flurries"@) by { assert("Fog Patches"@.len() != "Light Flurries"@.len()); }
    assert("Fog Patches"@ != "Cloudy"@) by { assert("Fog Patches"@.len() != "Cloudy"@.len()); }
    assert("Fog Patches"@ != "Precipitation"@) by { assert("Fog Patches"@.len() != "Precipitation"@.len()); }
    assert("Fog Patches"@ != "Squalls"@) by { assert("Fog Patches"@.len() != "Squalls"@.len()); }
    assert("Fog Patches"@ != "Light Precipitation"@) by { assert("Fog Patches"@.len() != "Light Precipitation"@.len()); }
    assert("Fog Patches"@ != "Heavy Precipitation"@) by { assert("Fog Patches"@.len() != "Heavy Precipitation"@.len()); }
    assert("Fog Patches"@ != "Rain Shower"@) by { assert("Fog Patches"@[0] != "Rain Shower"@[0]); }
    assert("Fog Patches"@ != "Light Rain and Drizzle"@) by { assert("Fog Patches"@.len() != "Light Rain and Drizzle"@.len()); }
    assert("Fog Patches"@ != "Light Rain"@) by { assert("Fog Patches"@.len() != "Light Rain"@.len()); }
    assert("Fog Patches"@ != "Rain"@) by { assert("Fog Patches"@.len() != "Rain"@.len()); }
    assert("Fog Patches"@ != "Rain and Drizzle"@) by { assert("Fog Patches"@.len() != "Rain and Drizzle"@.len()); }
    assert("Fog Patches"@ != "Heavy Rain and Drizzle"@) by { assert("Fog Patches"@.len() != "Heavy Rain and Drizzle"@.len()); }
    assert("Fog Patches"@ != "Heavy Rain Shower"@) by { assert("Fog Patches"@.len() != "Heavy Rain Shower"@.len()); }
    assert("Fog Patches"@ != "Heavy Rain"@) by { assert("Fog Patches"@.len() != "Heavy Rain"@.len()); }
    assert("Fog Patches"@ != "Light Freezing Drizzle"@) by { assert("Fog Patches"@.len() != "Light Freezing Drizzle"@.len()); }
    assert("Fog Patches"@ != "Light Freezing Rain"@) by { assert("Fog Patches"@.len() != "Light Freezing Rain"@.len()); }
    assert("Fog Patches"@ != "Heavy Freezing Drizzle"@) by { assert("Fog Patches"@.len() != "Heavy Freezing Drizzle"@.len()); }
    assert("Fog Patches"@ != "Heavy Freezing Rain"@) by { assert("Fog Patches"@.len() != "Heavy Freezing Rain"@.len()); }
    assert("Fog Patches"@ != "Freezing Drizzle"@) by { assert("Fog Patches"@.len() != "Freezing Drizzle"@.len()); }
    assert("Fog Patches"@ != "Freezing Rain"@) by { assert("Fog Patches"@.len() != "Freezing Rain"@.len()); }
    assert("Fog Patches"@ != "Rain and Flurries"@) by { assert("Fog Patches"@.len() != "Rain and Flurries"@.len()); }
    assert("Fog Patches"@ != "Rain and Snow"@) by { assert("Fog Patches"@.len() != "Rain and Snow"@.len()); }
    assert("Fog Patches"@ != "Heavy Rain Shower and Flurries"@) by { assert("Fog Patches"@.len() != "Heavy Rain Shower and Flurries"@.len()); }
    assert("Fog Patches"@ != "Heavy Rain and Snow"@) by { assert("Fog Patches"@.len() != "Heavy Rain and Snow"@.len()); }
    assert("Fog Patches"@ != "Light Snow"@) by { assert("Fog Patches"@.len() != "Light Snow"@.len()); }
    assert("Fog Patches"@ != "Snow"@) by { assert("Fog Patches"@.len() != "Snow"@.len()); }
    assert("Fog Patches"@ != "Flurries"@) by { assert("Fog Patches"@.len() != "Flurries"@.len()); }
    assert("Fog Patches"@ != "Heavy Flurries"@) by { assert("Fog Patches"@.len() != "Heavy Flurries"@.len()); }
    assert("Fog Patches"@ != "Heavy Snow"@) by { assert("Fog Patches"@.len() != "Heavy Snow"@.len()); }
    assert("Fog Patches"@ != "Thunderstorm with Rain"@) by { assert("Fog Patches"@.len() != "Thunderstorm with Rain"@.len()); }
    assert("Fog Patches"@ != "Thunderstorm with Heavy Rain"@) by { assert("Fog Patches"@.len() != "Thunderstorm with Heavy Rain"@.len()); }
    assert("Fog Patches"@ != "Thunderstorm with Light Rain"@) by { assert("Fog Patches"@.len() != "Thunderstorm with Light Rain"@.len()); }
    assert("Fog Patches"@ != "Thunderstorm"@) by { assert("Fog Patches"@.len() != "Thunderstorm"@.len()); }
    assert("Fog Patches"@ != "Heavy Thunderstorm"@) by { assert("Fog Patches"@.len() != "Heavy Thunderstorm"@.len()); }
    assert("Fog Patches"@ != "Heavy Thunderstorm with Rain"@) by { assert("Fog Patches"@.len() != "Heavy Thunderstorm with Rain"@.len()); }
    assert("Fog Patches"@ != "Haze"@) by { assert("Fog Patches"@.len() != "Haze"@.len()); }
    assert("Fog Patches"@ != "Fog"@) by { assert("Fog Patches"@.len() != "Fog"@.len()); }
    assert("Fog Patches"@ != "Ice Fog"@) by { assert("Fog Patches"@.len() != "Ice Fog"@.len()); }
    assert("Shallow Fog"@ != "Sunny"@) by { assert("Shallow Fog"@.len() != "Sunny"@.len()); }
    assert("Shallow Fog"@ != "Mainly Sunny"@) by { assert("Shallow Fog"@.len() != "Mainly Sunny"@.len()); }
    assert("Shallow Fog"@ != "Partly Cloudy"@) by { assert("Shallow Fog"@.len() != "Partly Cloudy"@.len()); }
    assert("Shallow Fog"@ != "Mostly Cloudy"@) by { assert("Shallow Fog"@.len() != "Mostly Cloudy"@.len()); }
    assert("Shallow Fog"@ != "Light Rain Shower"@) by { assert("Shallow Fog"@.len() != "Light Rain Shower"@.len()); }
    assert("Shallow Fog"@ != "Light Rain Shower and Flurries"@) by { assert("Shallow Fog"@.len() != "Light Rain Shower and Flurries"@.len()); }
    assert("Shallow Fog"@ != "Light Flurries"@) by { assert("Shallow Fog"@.len() != "Light Flurries"@.len()); }
    assert("Shallow Fog"@ != "Cloudy"@) by { assert("Shallow Fog"@.len() != "Cloudy"@.len()); }
    assert("Shallow Fog"@ != "Precipitation"@) by { assert("Shallow Fog"@.len() != "Precipitation"@.len()); }
    assert("Shallow Fog"@ != "Squalls"@) by { assert("Shallow Fog"@.len() != "Squalls"@.len()); }
    assert("Shallow Fog"@ != "Light Precipitation"@) by { assert("Shallow Fog"@.len() != "Light Precipitation"@.len()); }
    assert("Shallow Fog"@ != "Heavy Precipitation"@) by { assert("Shallow Fog"@.len() != "Heavy Precipitation"@.len()); }
    assert("Shallow Fog"@ != "Rain Shower"@) by { assert("Shallow Fog"@[0] != "Rain Shower"@[0]); }
    assert("Shallow Fog"@ != "Light Rain and Drizzle"@) by { assert("Shallow Fog"@.len() != "Light Rain and Drizzle"@.len()); }
    assert("Shallow Fog"@ != "Light Rain"@) by { assert("Shallow Fog"@.len() != "Light Rain"@.len()); }
    assert("Shallow Fog"@ != "Rain"@) by { assert("Shallow Fog"@.len() != "Rain"@.len()); }
    assert("Shallow Fog"@ != "Rain and Drizzle"@) by { assert("Shallow Fog"@.len() != "Rain and Drizzle"@.len()); }
    assert("Shallow Fog"@ != "Heavy Rain and Drizzle"@) by { assert("Shallow Fog"@.len() != "Heavy Rain and Drizzle"@.len()); }
    assert("Shallow Fog"@ != "Heavy Rain Shower"@) by { assert("Shallow Fog"@.len() != "Heavy Rain Shower"@.len()); }
    assert("Shallow Fog"@ != "Heavy Rain"@) by { assert("Shallow Fog"@.len() != "Heavy Rain"@.len()); }
    assert("Shallow Fog"@ != "Light Freezing Drizzle"@) by { assert("Shallow Fog"@.len() != "Light Freezing Drizzle"@.len()); }
    assert("Shallow Fog"@ != "Light Freezing Rain"@) by { assert("Shallow Fog"@.len() != "Light Freezing Rain"@.len()); }
    assert("Shallow Fog"@ != "Heavy Freezing Drizzle"@) by { assert("Shallow Fog"@.len() != "Heavy Freezing Drizzle"@.len()); }
    assert("Shallow Fog"@ != "Heavy Freezing Rain"@) by { assert("Shallow Fog"@.len() != "Heavy Freezing Rain"@.len()); }
    assert("Shallow Fog"@ != "Freezing Drizzle"@) by { assert("Shallow Fog"@.len() != "Freezing Drizzle"@.len()); }
    assert("Shallow Fog"@ != "Freezing Rain"@) by { assert("Shallow Fog"@.len() != "Freezing Rain"@.len()); }
    assert("Shallow Fog"@ != "Rain and Flurries"@) by { assert("Shallow Fog"@.len() != "Rain and Flurries"@.len()); }
    assert("Shallow Fog"@ != "Rain and Snow"@) by { assert("Shallow Fog"@.len() != "Rain and Snow"@.len()); }
    assert("Shallow Fog"@ != "Heavy Rain Shower and Flurries"@) by { assert("Shallow Fog"@.len() != "Heavy Rain Shower and Flurries"@.len()); }
    assert("Shallow Fog"@ != "Heavy Rain and Snow"@) by { assert("Shallow Fog"@.len() != "Heavy Rain and Snow"@.len()); }
    assert("Shallow Fog"@ != "Light Snow"@) by { assert("Shallow Fog"@.len() != "Light Snow"@.len()); }
    assert("Shallow Fog"@ != "Snow"@) by { assert("Shallow Fog"@.len() != "Snow"@.len()); }
    assert("Shallow Fog"@ != "Flurries"@) by { assert("Shallow Fog"@.len() != "Flurries"@.len()); }
    assert("Shallow Fog"@ != "Heavy Flurries"@) by { assert("Shallow Fog"@.len() != "Heavy Flurries"@.len()); }
    assert("Shallow Fog"@ != "Heavy Snow"@) by { assert("Shallow Fog"@.len() != "Heavy Snow"@.len()); }
    assert("Shallow Fog"@ != "Thunderstorm with Rain"@) by { assert("Shallow Fog"@.len() != "Thunderstorm with Rain"@.len()); }
    assert("Shallow Fog"@ != "Thunderstorm with Heavy Rain"@) by { assert("Shallow Fog"@.len() != "Thunderstorm with Heavy Rain"@.len()); }
    assert("Shallow Fog"@ != "Thunderstorm with Light Rain"@) by { assert("Shallow Fog"@.len() != "Thunderstorm with Light Rain"@.len()); }
    assert("Shallow Fog"@ != "Thunderstorm"@) by { assert("Shallow Fog"@.len() != "Thunderstorm"@.len()); }
    assert("Shallow Fog"@ != "Heavy Thunderstorm"@) by { assert("Shallow Fog"@.len() != "Heavy Thunderstorm"@.len()); }
    assert("Shallow Fog"@ != "Heavy Thunderstorm with Rain"@) by { assert("Shallow Fog"@.len() != "Heavy Thunderstorm with Rain"@.len()); }
    assert("Shallow Fog"@ != "Haze"@) by { assert("Shallow Fog"@.len() != "Haze"@.len()); }
    assert("Shallow Fog"@ != "Fog"@) by { assert("Shallow Fog"@.len() != "Fog"@.len()); }
    assert("Shallow Fog"@ != "Ice Fog"@) by { assert("Shallow Fog"@.len() != "Ice Fog"@.len()); }
    assert("Shallow Fog"@ != "Fog Patches"@) by { assert("Shallow Fog"@[0] != "Fog Patches"@[0]); }
    assert("Mist"@ != "Sunny"@) by { assert("Mist"@.len() != "Sunny"@.len()); }
    assert("Mist"@ != "Mainly Sunny"@) by { assert("Mist"@.len() != "Mainly Sunny"@.len()); }
    assert("Mist"@ != "Partly Cloudy"@) by { assert("Mist"@.len() != "Partly Cloudy"@.len()); }
    assert("Mist"@ != "Mostly Cloudy"@) by { assert("Mist"@.len() != "Mostly Cloudy"@.len()); }
    assert("Mist"@ != "Light Rain Shower"@) by { assert("Mist"@.len() != "Light Rain Shower"@.len()); }
    assert("Mist"@ != "Light Rain Shower and Flurries"@) by { assert("Mist"@.len() != "Light Rain Shower and Flurries"@.len()); }
    assert("Mist"@ != "Light Flurries"@) by { assert("Mist"@.len() != "Light Flurries"@.len()); }
    assert("Mist"@ != "Cloudy"@) by { assert("Mist"@.len() != "Cloudy"@.len()); }
    assert("Mist"@ != "Precipitation"@) by { assert("Mist"@.len() != "Precipitation"@.len()); }
    assert("Mist"@ != "Squalls"@) by { assert("Mist"@.len() != "Squalls"@.len()); }
    assert("Mist"@ != "Light Precipitation"@) by { assert("Mist"@.len() != "Light Precipitation"@.len()); }
    assert("Mist"@ != "Heavy Precipitation"@) by { assert("Mist"@.len() != "Heavy Precipitation"@.len()); }
    assert("Mist"@ != "Rain Shower"@) by { assert("Mist"@.len() != "Rain Shower"@.len()); }
    assert("Mist"@ != "Light Rain and Drizzle"@) by { assert("Mist"@.len() != "Light Rain and Drizzle"@.len()); }
    assert("Mist"@ != "Light Rain"@) by { assert("Mist"@.len() != "Light Rain"@.len()); }
    assert("Mist"@ != "Rain"@) by { assert("Mist"@[0] != "Rain"@[0]); }
    assert("Mist"@ != "Rain and Drizzle"@) by { assert("Mist"@.len() != "Rain and Drizzle"@.len()); }
    assert("Mist"@ != "Heavy Rain and Drizzle"@) by { assert("Mist"@.len() != "Heavy Rain and Drizzle"@.len()); }
    assert("Mist"@ != "Heavy Rain Shower"@) by { assert("Mist"@.len() != "Heavy Rain Shower"@.len()); }
    assert("Mist"@ != "Heavy Rain"@) by { assert("Mist"@.len() != "Heavy Rain"@.len()); }
    assert("Mist"@ != "Light Freezing Drizzle"@) by { assert("Mist"@.len() != "Light Freezing Drizzle"@.len()); }
    assert("Mist"@ != "Light Freezing Rain"@) by { assert("Mist"@.len() != "Light Freezing Rain"@.len()); }
    assert("Mist"@ != "Heavy Freezing Drizzle"@) by { assert("Mist"@.len() != "Heavy Freezing Drizzle"@.len()); }
    assert("Mist"@ != "Heavy Freezing Rain"@) by { assert("Mist"@.len() != "Heavy Freezing Rain"@.len()); }
    assert("Mist"@ != "Freezing Drizzle"@) by { assert("Mist"@.len() != "Freezing Drizzle"@.len()); }
    assert("Mist"@ != "Freezing Rain"@) by { assert("Mist"@.len() != "Freezing Rain"@.len()); }
    assert("Mist"@ != "Rain and Flurries"@) by { assert("Mist"@.len() != "Rain and Flurries"@.len()); }
    assert("Mist"@ != "Rain and Snow"@) by { assert("Mist"@.len() != "Rain and Snow"@.len()); }
    assert("Mist"@ != "Heavy Rain Shower and Flurries"@) by { assert("Mist"@.len() != "Heavy Rain Shower and Flurries"@.len()); }
    assert("Mist"@ != "Heavy Rain and Snow"@) by { assert("Mist"@.len() != "Heavy Rain and Snow"@.len()); }
    assert("Mist"@ != "Light Snow"@) by { assert("Mist"@.len() != "Light Snow"@.len()); }
    assert("Mist"@ != "Snow"@) by { assert("Mist"@[0] != "Snow"@[0]); }
    assert("Mist"@ != "Flurries"@) by { assert("Mist"@.len() != "Flurries"@.len()); }
    assert("Mist"@ != "Heavy Flurries"@) by { assert("Mist"@.len() != "Heavy Flurries"@.len()); }
    assert("Mist"@ != "Heavy Snow"@) by { assert("Mist"@.len() != "Heavy Snow"@.len()); }
    assert("Mist"@ != "Thunderstorm with Rain"@) by { assert("Mist"@.len() != "Thunderstorm with Rain"@.len()); }
    assert("Mist"@ != "Thunderstorm with Heavy Rain"@) by { assert("Mist"@.len() != "Thunderstorm with Heavy Rain"@.len()); }
    assert("Mist"@ != "Thunderstorm with Light Rain"@) by { assert("Mist"@.len() != "Thunderstorm with Light Rain"@.len()); }
    assert("Mist"@ != "Thunderstorm"@) by { assert("Mist"@.len() != "Thunderstorm"@.len()); }
    assert("Mist"@ != "Heavy Thunderstorm"@) by { assert("Mist"@.len() != "Heavy Thunderstorm"@.len()); }
    assert("Mist"@ != "Heavy Thunderstorm with Rain"@) by { assert("Mist"@.len() != "Heavy Thunderstorm with Rain"@.len()); }
    assert("Mist"@ != "Haze"@) by { assert("Mist"@[0] != "Haze"@[0]); }
    assert("Mist"@ != "Fog"@) by { assert("Mist"@.len() != "Fog"@.len()); }
    assert("Mist"@ != "Ice Fog"@) by { assert("Mist"@.len() != "Ice Fog"@.len()); }
    assert("Mist"@ != "Fog Patches"@) by { assert("Mist"@.len() != "Fog Patches"@.len()); }
    assert("Mist"@ != "Shallow Fog"@) by { assert("Mist"@.len() != "Shallow Fog"@.len()); }
    assert("Drifting Snow"@ != "Sunny"@) by { assert("Drifting Snow"@.len() != "Sunny"@.len()); }
    assert("Drifting Snow"@ != "Mainly Sunny"@) by { assert("Drifting Snow"@.len() != "Mainly Sunny"@.len()); }
    assert("Drifting Snow"@ != "Partly Cloudy"@) by { assert("Drifting Snow"@[0] != "Partly Cloudy"@[0]); }
    assert("Drifting Snow"@ != "Mostly Cloudy"@) by { assert("Drifting Snow"@[0] != "Mostly Cloudy"@[0]); }
    assert("Drifting Snow"@ != "Light Rain Shower"@) by { assert("Drifting Snow"@.len() != "Light Rain Shower"@.len()); }
    assert("Drifting Snow"@ != "Light Rain Shower and Flurries"@) by { assert("Drifting Snow"@.len() != "Light Rain Shower and Flurries"@.len()); }
    assert("Drifting Snow"@ != "Light Flurries"@) by { assert("Drifting Snow"@.len() != "Light Flurries"@.len()); }
    assert("Drifting Snow"@ != "Cloudy"@) by { assert("Drifting Snow"@.len() != "Cloudy"@.len()); }
    assert("Drifting Snow"@ != "Precipitation"@) by { assert("Drifting Snow"@[0] != "Precipitation"@[0]); }
    assert("Drifting Snow"@ != "Squalls"@) by { assert("Drifting Snow"@.len() != "Squalls"@.len()); }
    assert("Drifting Snow"@ != "Light Precipitation"@) by { assert("Drifting Snow"@.len() != "Light Precipitation"@.len()); }
    assert("Drifting Snow"@ != "Heavy Precipitation"@) by { assert("Drifting Snow"@.len() != "Heavy Precipitation"@.len()); }
    assert("Drifting Snow"@ != "Rain Shower"@) by { assert("Drifting Snow"@.len() != "Rain Shower"@.len()); }
    assert("Drifting Snow"@ != "Light Rain and Drizzle"@) by { assert("Drifting Snow"@.len() != "Light Rain and Drizzle"@.len()); }
    assert("Drifting Snow"@ != "Light Rain"@) by { assert("Drifting Snow"@.len() != "Light Rain"@.len()); }
    assert("Drifting Snow"@ != "Rain"@) by { assert("Drifting Snow"@.len() != "Rain"@.len()); }
    assert("Drifting Snow"@ != "Rain and Drizzle"@) by { assert("Drifting Snow"@.len() != "Rain and Drizzle"@.len()); }
    assert("Drifting Snow"@ != "Heavy Rain and Drizzle"@) by { assert("Drifting Snow"@.len() != "Heavy Rain and Drizzle"@.len()); }
    assert("Drifting Snow"@ != "Heavy Rain Shower"@) by { assert("Drifting Snow"@.len() != "Heavy Rain Shower"@.len()); }
    assert("Drifting Snow"@ != "Heavy Rain"@) by { assert("Drifting Snow"@.len() != "Heavy Rain"@.len()); }
    assert("Drifting Snow"@ != "Light Freezing Drizzle"@) by { assert("Drifting Snow"@.len() != "Light Freezing Drizzle"@.len()); }
    assert("Drifting Snow"@ != "Light Freezing Rain"@) by { assert("Drifting Snow"@.len() != "Light Freezing Rain"@.len()); }
    assert("Drifting Snow"@ != "Heavy Freezing Drizzle"@) by { assert("Drifting Snow"@.len() != "Heavy Freezing Drizzle"@.len()); }
    assert("Drifting Snow"@ != "Heavy Freezing Rain"@) by { assert("Drifting Snow"@.len() != "Heavy Freezing Rain"@.len()); }
    assert("Drifting Snow"@ != "Freezing Drizzle"@) by { assert("Drifting Snow"@.len() != "Freezing Drizzle"@.len()); }
    assert("Drifting Snow"@ != "Freezing Rain"@) by { assert("Drifting Snow"@[0] != "Freezing Rain"@[0]); }
    assert("Drifting Snow"@ != "Rain and Flurries"@) by { assert("Drifting Snow"@.len() != "Rain and Flurries"@.len()); }
    assert("Drifting Snow"@ != "Rain and Snow"@) by { assert("Drifting Snow"@[0] != "Rain and Snow"@[0]); }
    assert("Drifting Snow"@ != "Heavy Rain Shower and Flurries"@) by { assert("Drifting Snow"@.len() != "Heavy Rain Shower and Flurries"@.len()); }
    assert("Drifting Snow"@ != "Heavy Rain and Snow"@) by { assert("Drifting Snow"@.len() != "Heavy Rain and Snow"@.len()); }
    assert("Drifting Snow"@ != "Light Snow"@) by { assert("Drifting Snow"@.len() != "Light Snow"@.len()); }
    assert("Drifting Snow"@ != "Snow"@) by { assert("Drifting Snow"@.len() != "Snow"@.len()); }
    assert("Drifting Snow"@ != "Flurries"@) by { assert("Drifting Snow"@.len() != "Flurries"@.len()); }
    assert("Drifting Snow"@ != "Heavy Flurries"@) by { assert("Drifting Snow"@.len() != "Heavy Flurries"@.len()); }
    assert("Drifting Snow"@ != "Heavy Snow"@) by { assert("Drifting Snow"@.len() != "Heavy Snow"@.len()); }
    assert("Drifting Snow"@ != "Thunderstorm with Rain"@) by { assert("Drifting Snow"@.len() != "Thunderstorm with Rain"@.len()); }
    assert("Drifting Snow"@ != "Thunderstorm with Heavy Rain"@) by { assert("Drifting Snow"@.len() != "Thunderstorm with Heavy Rain"@.len()); }
    assert("Drifting Snow"@ != "Thunderstorm with Light Rain"@) by { assert("Drifting Snow"@.len() != "Thunderstorm with Light Rain"@.len()); }
    assert("Drifting Snow"@ != "Thunderstorm"@) by { assert("Drifting Snow"@.len() != "Thunderstorm"@.len()); }
    assert("Drifting Snow"@ != "Heavy Thunderstorm"@) by { assert("Drifting Snow"@.len() != "Heavy Thunderstorm"@.len()); }
    assert("Drifting Snow"@ != "Heavy Thunderstorm with Rain"@) by { assert("Drifting Snow"@.len() != "Heavy Thunderstorm with Rain"@.len()); }
    assert("Drifting Snow"@ != "Haze"@) by { assert("Drifting Snow"@.len() != "Haze"@.len()); }
    assert("Drifting Snow"@ != "Fog"@) by { assert("Drifting Snow"@.len() != "Fog"@.len()); }
    assert("Drifting Snow"@ != "Ice Fog"@) by { assert("Drifting Snow"@.len() != "Ice Fog"@.len()); }
    assert("Drifting Snow"@ != "Fog Patches"@) by { assert("Drifting Snow"@.len() != "Fog Patches"@.len()); }
    assert("Drifting Snow"@ != "Shallow Fog"@) by { assert("Drifting Snow"@.len() != "Shallow Fog"@.len()); }
    assert("Drifting Snow"@ != "Mist"@) by { assert("Drifting Snow"@.len() != "Mist"@.len()); }
    assert("Ice Crystals"@ != "Sunny"@) by { assert("Ice Crystals"@.len() != "Sunny"@.len()); }
    assert("Ice Crystals"@ != "Mainly Sunny"@) by { assert("Ice Crystals"@[0] != "Mainly Sunny"@[0]); }
    assert("Ice Crystals"@ != "Partly Cloudy"@) by { assert("Ice Crystals"@.len() != "Partly Cloudy"@.len()); }
    assert("Ice Crystals"@ != "Mostly Cloudy"@) by { assert("Ice Crystals"@.len() != "Mostly Cloudy"@.len()); }
    assert("Ice Crystals"@ != "Light Rain Shower"@) by { assert("Ice Crystals"@.len() != "Light Rain Shower"@.len()); }
    assert("Ice Crystals"@ != "Light Rain Shower and Flurries"@) by { assert("Ice Crystals"@.len() != "Light Rain Shower and Flurries"@.len()); }
    assert("Ice Crystals"@ != "Light Flurries"@) by { assert("Ice Crystals"@.len() != "Light Flurries"@.len()); }
    assert("Ice Crystals"@ != "Cloudy"@) by { assert("Ice Crystals"@.len() != "Cloudy"@.len()); }
    assert("Ice Crystals"@ != "Precipitation"@) by { assert("Ice Crystals"@.len() != "Precipitation"@.len()); }
    assert("Ice Crystals"@ != "Squalls"@) by { assert("Ice Crystals"@.len() != "Squalls"@.len()); }
    assert("Ice Crystals"@ != "Light Precipitation"@) by { assert("Ice Crystals"@.len() != "Light Precipitation"@.len()); }
    assert("Ice Crystals"@ != "Heavy Precipitation"@) by { assert("Ice Crystals"@.len() != "Heavy Precipitation"@.len()); }
    assert("Ice Crystals"@ != "Rain Shower"@) by { assert("Ice Crystals"@.len() != "Rain Shower"@.len()); }
    assert("Ice Crystals"@ != "Light Rain and Drizzle"@) by { assert("Ice Crystals"@.len() != "Light Rain and Drizzle"@.len()); }
    assert("Ice Crystals"@ != "Light Rain"@) by { assert("Ice Crystals"@.len() != "Light Rain"@.len()); }
    assert("Ice Crystals"@ != "Rain"@) by { assert("Ice Crystals"@.len() != "Rain"@.len()); }
    assert("Ice Crystals"@ != "Rain and Drizzle"@) by { assert("Ice Crystals"@.len() != "Rain and Drizzle"@.len()); }
    assert("Ice Crystals"@ != "Heavy Rain and Drizzle"@) by { assert("Ice Crystals"@.len() != "Heavy Rain and Drizzle"@.len()); }
    assert("Ice Crystals"@ != "Heavy Rain Shower"@) by { assert("Ice Crystals"@.len() != "Heavy Rain Shower"@.len()); }
    assert("Ice Crystals"@ != "Heavy Rain"@) by { assert("Ice Crystals"@.len() != "Heavy Rain"@.len()); }
    assert("Ice Crystals"@ != "Light Freezing Drizzle"@) by { assert("Ice Crystals"@.len() != "Light Freezing Drizzle"@.len()); }
    assert("Ice Crystals"@ != "Light Freezing Rain"@) by { assert("Ice Crystals"@.len() != "Light Freezing Rain"@.len()); }
    assert("Ice Crystals"@ != "Heavy Freezing Drizzle"@) by { assert("Ice Crystals"@.len() != "Heavy Freezing Drizzle"@.len()); }
    assert("Ice Crystals"@ != "Heavy Freezing Rain"@) by { assert("Ice Crystals"@.len() != "Heavy Freezing Rain"@.len()); }
    assert("Ice Crystals"@ != "Freezing Drizzle"@) by { assert("Ice Crystals"@.len() != "Freezing Drizzle"@.len()); }
    assert("Ice Crystals"@ != "Freezing Rain"@) by { assert("Ice Crystals"@.len() != "Freezing Rain"@.len()); }
    assert("Ice Crystals"@ != "Rain and Flurries"@) by { assert("Ice Crystals"@.len() != "Rain and Flurries"@.len()); }
    assert("Ice Crystals"@ != "Rain and Snow"@) by { assert("Ice Crystals"@.len() != "Rain and Snow"@.len()); }
    assert("Ice Crystals"@ != "Heavy Rain Shower and Flurries"@) by { assert("Ice Crystals"@.len() != "Heavy Rain Shower and Flurries"@.len()); }
    assert("Ice Crystals"@ != "Heavy Rain and Snow"@) by { assert("Ice Crystals"@.len() != "Heavy Rain and Snow"@.len()); }
    assert("Ice Crystals"@ != "Light Snow"@) by { assert("Ice Crystals"@.len() != "Light Snow"@.len()); }
    assert("Ice Crystals"@ != "Snow"@) by { assert("Ice Crystals"@.len() != "Snow"@.len()); }
    assert("Ice Crystals"@ != "Flurries"@) by { assert("Ice Crystals"@.len() != "Flurries"@.len()); }
    assert("Ice Crystals"@ != "Heavy Flurries"@) by { assert("Ice Crystals"@.len() != "Heavy Flurries"@.len()); }
    assert("Ice Crystals"@ != "Heavy Snow"@) by { assert("Ice Crystals"@.len() != "Heavy Snow"@.len()); }
    assert("Ice Crystals"@ != "Thunderstorm with Rain"@) by { assert("Ice Crystals"@.len() != "Thunderstorm with Rain"@.len()); }
    assert("Ice Crystals"@ != "Thunderstorm with Heavy Rain"@) by { assert("Ice Crystals"@.len() != "Thunderstorm with Heavy Rain"@.len()); }
    assert("Ice Crystals"@ != "Thunderstorm with Light Rain"@) by { assert("Ice Crystals"@.len() != "Thunderstorm with Light Rain"@.len()); }
    assert("Ice Crystals"@ != "Thunderstorm"@) by { assert("Ice Crystals"@[0] != "Thunderstorm"@[0]); }
    assert("Ice Crystals"@ != "Heavy Thunderstorm"@) by { assert("Ice Crystals"@.len() != "Heavy Thunderstorm"@.len()); }
    assert("Ice Crystals"@ != "Heavy Thunderstorm with Rain"@) by { assert("Ice Crystals"@.len() != "Heavy Thunderstorm with Rain"@.len()); }
    assert("Ice Crystals"@ != "Haze"@) by { assert("Ice Crystals"@.len() != "Haze"@.len()); }
    assert("Ice Crystals"@ != "Fog"@) by { assert("Ice Crystals"@.len() != "Fog"@.len()); }
    assert("Ice Crystals"@ != "Ice Fog"@) by { assert("Ice Crystals"@.len() != "Ice Fog"@.len()); }
    assert("Ice Crystals"@ != "Fog Patches"@) by { assert("Ice Crystals"@.len() != "Fog Patches"@.len()); }
    assert("Ice Crystals"@ != "Shallow Fog"@) by { assert("Ice Crystals"@.len() != "Shallow Fog"@.len()); }
    assert("Ice Crystals"@ != "Mist"@) by { assert("Ice Crystals"@.len() != "Mist"@.len()); }
    assert("Ice Crystals"@ != "Drifting Snow"@) by { assert("Ice Crystals"@.len() != "Drifting Snow"@.len()); }
    assert("Snow Pellets"@ != "Sunny"@) by { assert("Snow Pellets"@.len() != "Sunny"@.len()); }
    assert("Snow Pellets"@ != "Mainly Sunny"@) by { assert("Snow Pellets"@[0] != "Mainly Sunny"@[0]); }
    assert("Snow Pellets"@ != "Partly Cloudy"@) by { assert("Snow Pellets"@.len() != "Partly Cloudy"@.len()); }
    assert("Snow Pellets"@ != "Mostly Cloudy"@) by { assert("Snow Pellets"@.len() != "Mostly Cloudy"@.len()); }
    assert("Snow Pellets"@ != "Light Rain Shower"@) by { assert("Snow Pellets"@.len() != "Light Rain Shower"@.len()); }
    assert("Snow Pellets"@ != "Light Rain Shower and Flurries"@) by { assert("Snow Pellets"@.len() != "Light Rain Shower and Flurries"@.len()); }
    assert("Snow Pellets"@ != "Light Flurries"@) by { assert("Snow Pellets"@.len() != "Light Flurries"@.len()); }
    assert("Snow Pellets"@ != "Cloudy"@) by { assert("Snow Pellets"@.len() != "Cloudy"@.len()); }
    assert("Snow Pellets"@ != "Precipitation"@) by { assert("Snow Pellets"@.len() != "Precipitation"@.len()); }
    assert("Snow Pellets"@ != "Squalls"@) by { assert("Snow Pellets"@.len() != "Squalls"@.len()); }
    assert("Snow Pellets"@ != "Light Precipitation"@) by { assert("Snow Pellets"@.len() != "Light Precipitation"@.len()); }
    assert("Snow Pellets"@ != "Heavy Precipitation"@) by { assert("Snow Pellets"@.len() != "Heavy Precipitation"@.len()); }
    assert("Snow Pellets"@ != "Rain Shower"@) by { assert("Snow Pellets"@.len() != "Rain Shower"@.len()); }
    assert("Snow Pellets"@ != "Light Rain and Drizzle"@) by { assert("Snow Pellets"@.len() != "Light Rain and Drizzle"@.len()); }
    assert("Snow Pellets"@ != "Light Rain"@) by { assert("Snow Pellets"@.len() != "Light Rain"@.len()); }
    assert("Snow Pellets"@ != "Rain"@) by { assert("Snow Pellets"@.len() != "Rain"@.len()); }
    assert("Snow Pellets"@ != "Rain and Drizzle"@) by { assert("Snow Pellets"@.len() != "Rain and Drizzle"@.len()); }
    assert("Snow Pellets"@ != "Heavy Rain and Drizzle"@) by { assert("Snow Pellets"@.len() != "Heavy Rain and Drizzle"@.len()); }
    assert("Snow Pellets"@ != "Heavy Rain Shower"@) by { assert("Snow Pellets"@.len() != "Heavy Rain Shower"@.len()); }
    assert("Snow Pellets"@ != "Heavy Rain"@) by { assert("Snow Pellets"@.len() != "Heavy Rain"@.len()); }
    assert("Snow Pellets"@ != "Light Freezing Drizzle"@) by { assert("Snow Pellets"@.len() != "Light Freezing Drizzle"@.len()); }
    assert("Snow Pellets"@ != "Light Freezing Rain"@) by { assert("Snow Pellets"@.len() != "Light Freezing Rain"@.len()); }
    assert("Snow Pellets"@ != "Heavy Freezing Drizzle"@) by { assert("Snow Pellets"@.len() != "Heavy Freezing Drizzle"@.len()); }
    assert("Snow Pellets"@ != "Heavy Freezing Rain"@) by { assert("Snow Pellets"@.len() != "Heavy Freezing Rain"@.len()); }
    assert("Snow Pellets"@ != "Freezing Drizzle"@) by { assert("Snow Pellets"@.len() != "Freezing Drizzle"@.len()); }
    assert("Snow Pellets"@ != "Freezing Rain"@) by { assert("Snow Pellets"@.len() != "Freezing Rain"@.len()); }
    assert("Snow Pellets"@ != "Rain and Flurries"@) by { assert("Snow Pellets"@.len() != "Rain and Flurries"@.len()); }
    assert("Snow Pellets"@ != "Rain and Snow"@) by { assert("Snow Pellets"@.len() != "Rain and Snow"@.len()); }
    assert("Snow Pellets"@ != "Heavy Rain Shower and Flurries"@) by { assert("Snow Pellets"@.len() != "Heavy Rain Shower and Flurries"@.len()); }
    assert("Snow Pellets"@ != "Heavy Rain and Snow"@) by { assert("Snow Pellets"@.len() != "Heavy Rain and Snow"@.len()); }
    assert("Snow Pellets"@ != "Light Snow"@) by { assert("Snow Pellets"@.len() != "Light Snow"@.len()); }
    assert("Snow Pellets"@ != "Snow"@) by { assert("Snow Pellets"@.len() != "Snow"@.len()); }
    assert("Snow Pellets"@ != "Flurries"@) by { assert("Snow Pellets"@.len() != "Flurries"@.len()); }
    assert("Snow Pellets"@ != "Heavy Flurries"@) by { assert("Snow Pellets"@.len() != "Heavy Flurries"@.len()); }
    assert("Snow Pellets"@ != "Heavy Snow"@) by { assert("Snow Pellets"@.len() != "Heavy Snow"@.len()); }
    assert("Snow Pellets"@ != "Thunderstorm with Rain"@) by { assert("Snow Pellets"@.len() != "Thunderstorm with Rain"@.len()); }
    assert("Snow Pellets"@ != "Thunderstorm with Heavy Rain"@) by { assert("Snow Pellets"@.len() != "Thunderstorm with Heavy Rain"@.len()); }
    assert("Snow Pellets"@ != "Thunderstorm with Light Rain"@) by { assert("Snow Pellets"@.len() != "Thunderstorm with Light Rain"@.len()); }
    assert("Snow Pellets"@ != "Thunderstorm"@) by { assert("Snow Pellets"@[0] != "Thunderstorm"@[0]); }
    assert("Snow Pellets"@ != "Heavy Thunderstorm"@) by { assert("Snow Pellets"@.len() != "Heavy Thunderstorm"@.len()); }
    assert("Snow Pellets"@ != "Heavy Thunderstorm with Rain"@) by { assert("Snow Pellets"@.len() != "Heavy Thunderstorm with Rain"@.len()); }
    assert("Snow Pellets"@ != "Haze"@) by { assert("Snow Pellets"@.len() != "Haze"@.len()); }
    assert("Snow Pellets"@ != "Fog"@) by { assert("Snow Pellets"@.len() != "Fog"@.len()); }
    assert("Snow Pellets"@ != "Ice Fog"@) by { assert("Snow Pellets"@.len() != "Ice Fog"@.len()); }
    assert("Snow Pellets"@ != "Fog Patches"@) by { assert("Snow Pellets"@.len() != "Fog Patches"@.len()); }
    assert("Snow Pellets"@ != "Shallow Fog"@) by { assert("Snow Pellets"@.len() != "Shallow Fog"@.len()); }
    assert("Snow Pellets"@ != "Mist"@) by { assert("Snow Pellets"@.len() != "Mist"@.len()); }
    assert("Snow Pellets"@ != "Drifting Snow"@) by { assert("Snow Pellets"@.len() != "Drifting Snow"@.len()); }
    assert("Snow Pellets"@ != "Ice Crystals"@) by { assert("Snow Pellets"@[0] != "Ice Crystals"@[0]); }
}

proof fn lemma_condition_table_6()
    ensures
        spec_condition_mapper("Ice Pellets"@) == Conditions::LightFreezingRain,
        spec_condition_mapper("Hail"@) == Conditions::Hail,
        spec_condition_mapper("Snow Grains"@) == Conditions::LightSnow,
        spec_condition_mapper("Light Drizzle"@) == Conditions::Drizzle,
        spec_condition_mapper("Heavy Drizzle"@) == Conditions::Drizzle,
        spec_condition_mapper("Drizzle"@) == Conditions::Drizzle,
        spec_condition_mapper("Clear"@) == Conditions::Clear,
        spec_condition_mapper("Mainly Clear"@) == Conditions::MainlyClear,
{
    reveal_strlit("Sunny");
    reveal_strlit("Mainly Sunny");
    reveal_strlit("Partly Cloudy");
    reveal_strlit("Mostly Cloudy");
    reveal_strlit("Light Rain Shower");
    reveal_strlit("Light Rain Shower and Flurries");
    reveal_strlit("Light Flurries");
    reveal_strlit("Cloudy");
    reveal_strlit("Precipitation");
    reveal_strlit("Squalls");
    reveal_strlit("Light Precipitation");
    reveal_strlit("Heavy Precipitation");
    reveal_strlit("Rain Shower");
    reveal_strlit("Light Rain and Drizzle");
    reveal_strlit("Light Rain");
    reveal_strlit("Rain");
    reveal_strlit("Rain and Drizzle");
    reveal_strlit("Heavy Rain and Drizzle");
    reveal_strlit("Heavy Rain Shower");
    reveal_strlit("Heavy Rain");
    reveal_strlit("Light Freezing Drizzle");
    reveal_strlit("Light Freezing Rain");
    reveal_strlit("Heavy Freezing Drizzle");
    reveal_strlit("Heavy Freezing Rain");
    reveal_strlit("Freezing Drizzle");
    reveal_strlit("Freezing Rain");
    reveal_strlit("Rain and Flurries");
    reveal_strlit("Rain and Snow");
    reveal_strlit("Heavy Rain Shower and Flurries");
    reveal_strlit("Heavy Rain and Snow");
    reveal_strlit("Light Snow");
    reveal_strlit("Snow");
    reveal_strlit("Flurries");
    reveal_strlit("Heavy Flurries");
    reveal_strlit("Heavy Snow");
    reveal_strlit("Thunderstorm with Rain");
    reveal_strlit("Thunderstorm with Heavy Rain");
    reveal_strlit("Thunderstorm with Light Rain");
    reveal_strlit("Thunderstorm");
    reveal_strlit("Heavy Thunderstorm");
    reveal_strlit("Heavy Thunderstorm with Rain");
    reveal_strlit("Haze");
    reveal_strlit("Fog");
    reveal_strlit("Ice Fog");
    reveal_strlit("Fog Patches");
    reveal_strlit("Shallow Fog");
    reveal_strlit("Mist");
    reveal_strlit("Drifting Snow");
    reveal_strlit("Ice Crystals");
    reveal_strlit("Snow Pellets");
    reveal_strlit("Ice Pellets");
    reveal_strlit("Hail");
    reveal_strlit("Snow Grains");
    reveal_strlit("Light Drizzle");
    reveal_strlit("Heavy Drizzle");
    reveal_strlit("Drizzle");
    reveal_strlit("Clear");
    reveal_strlit("Mainly Clear");
    assert("Ice Pellets"@ != "Sunny"@) by { assert("Ice Pellets"@.len() != "Sunny"@.len()); }
    assert("Ice Pellets"@ != "Mainly Sunny"@) by { assert("Ice Pellets"@.len() != "Mainly Sunny"@.len()); }
    assert("Ice Pellets"@ != "Partly Cloudy"@) by { assert("Ice Pellets"@.len() != "Partly Cloudy"@.len()); }
    assert("Ice Pellets"@ != "Mostly Cloudy"@) by { assert("Ice Pellets"@.len() != "Mostly Cloudy"@.len()); }
    assert("Ice Pellets"@ != "Light Rain Shower"@) by { assert("Ice Pellets"@.len() != "Light Rain Shower"@.len()); }
    assert("Ice Pellets"@ != "Light Rain Shower and Flurries"@) by { assert("Ice Pellets"@.len() != "Light Rain Shower and Flurries"@.len()); }
    assert("Ice Pellets"@ != "Light Flurries"@) by { assert("Ice Pellets"@.len() != "Light Flurries"@.len()); }
    assert("Ice Pellets"@ != "Cloudy"@) by { assert("Ice Pellets"@.len() != "Cloudy"@.len()); }
    assert("Ice Pellets"@ != "Precipitation"@) by { assert("Ice Pellets"@.len() != "Precipitation"@.len()); }
    assert("Ice Pellets"@ != "Squalls"@) by { assert("Ice Pellets"@.len() != "Squalls"@.len()); }
    assert("Ice Pellets"@ != "Light Precipitation"@) by { assert("Ice Pellets"@.len() != "Light Precipitation"@.len()); }
    assert("Ice Pellets"@ != "Heavy Precipitation"@) by { assert("Ice Pellets"@.len() != "Heavy Precipitation"@.len()); }
    assert("Ice Pellets"@ != "Rain Shower"@) by { assert("Ice Pellets"@[0] != "Rain Shower"@[0]); }
    assert("Ice Pellets"@ != "Light Rain and Drizzle"@) by { assert("Ice Pellets"@.len() != "Light Rain and Drizzle"@.len()); }
    assert("Ice Pellets"@ != "Light Rain"@) by { assert("Ice Pellets"@.len() != "Light Rain"@.len()); }
    assert("Ice Pellets"@ != "Rain"@) by { assert("Ice Pellets"@.len() != "Rain"@.len()); }
    assert("Ice Pellets"@ != "Rain and Drizzle"@) by { assert("Ice Pellets"@.len() != "Rain and Drizzle"@.len()); }
    assert("Ice Pellets"@ != "Heavy Rain and Drizzle"@) by { assert("Ice Pellets"@.len() != "Heavy Rain and Drizzle"@.len()); }
    assert("Ice Pellets"@ != "Heavy Rain Shower"@) by { assert("Ice Pellets"@.len() != "Heavy Rain Shower"@.len()); }
    assert("Ice Pellets"@ != "Heavy Rain"@) by { assert("Ice Pellets"@.len() != "Heavy Rain"@.len()); }
    assert("Ice Pellets"@ != "Light Freezing Drizzle"@) by { assert("Ice Pellets"@.len() != "Light Freezing Drizzle"@.len()); }
    assert("Ice Pellets"@ != "Light Freezing Rain"@) by { assert("Ice Pellets"@.len() != "Light Freezing Rain"@.len()); }
    assert("Ice Pellets"@ != "Heavy Freezing Drizzle"@) by { assert("Ice Pellets"@.len() != "Heavy Freezing Drizzle"@.len()); }
    assert("Ice Pellets"@ != "Heavy Freezing Rain"@) by { assert("Ice Pellets"@.len() != "Heavy Freezing Rain"@.len()); }
    assert("Ice Pellets"@ != "Freezing Drizzle"@) by { assert("Ice Pellets"@.len() != "Freezing Drizzle"@.len()); }
    assert("Ice Pellets"@ != "Freezing Rain"@) by { assert("Ice Pellets"@.len() != "Freezing Rain"@.len()); }
    assert("Ice Pellets"@ != "Rain and Flurries"@) by { assert("Ice Pellets"@.len() != "Rain and Flurries"@.len()); }
    assert("Ice Pellets"@ != "Rain and Snow"@) by { assert("Ice Pellets"@.len() != "Rain and Snow"@.len()); }
    assert("Ice Pellets"@ != "Heavy Rain Shower and Flurries"@) by { assert("Ice Pellets"@.len() != "Heavy Rain Shower and Flurries"@.len()); }
    assert("Ice Pellets"@ != "Heavy Rain and Snow"@) by { assert("Ice Pellets"@.len() != "Heavy Rain and Snow"@.len()); }
    assert("Ice Pellets"@ != "Light Snow"@) by { assert("Ice Pellets"@.len() != "Light Snow"@.len()); }
    assert("Ice Pellets"@ != "Snow"@) by { assert("Ice Pellets"@.len() != "Snow"@.len()); }
    assert("Ice Pellets"@ != "Flurries"@) by { assert("Ice Pellets"@.len() != "Flurries"@.len()); }
    assert("Ice Pellets"@ != "Heavy Flurries"@) by { assert("Ice Pellets"@.len() != "Heavy Flurries"@.len()); }
    assert("Ice Pellets"@ != "Heavy Snow"@) by { assert("Ice Pellets"@.len() != "Heavy Snow"@.len()); }
    assert("Ice Pellets"@ != "Thunderstorm with Rain"@) by { assert("Ice Pellets"@.len() != "Thunderstorm with Rain"@.len()); }
    assert("Ice Pellets"@ != "Thunderstorm with Heavy Rain"@) by { assert("Ice Pellets"@.len() != "Thunderstorm with Heavy Rain"@.len()); }
    assert("Ice Pellets"@ != "Thunderstorm with Light Rain"@) by { assert("Ice Pellets"@.len() != "Thunderstorm with Light Rain"@.len()); }
    assert("Ice Pellets"@ != "Thunderstorm"@) by { assert("Ice Pellets"@.len() != "Thunderstorm"@.len()); }
    assert("Ice Pellets"@ != "Heavy Thunderstorm"@) by { assert("Ice Pellets"@.len() != "Heavy Thunderstorm"@.len()); }
    assert("Ice Pellets"@ != "Heavy Thunderstorm with Rain"@) by { assert("Ice Pellets"@.len() != "Heavy Thunderstorm with Rain"@.len()); }
    assert("Ice Pellets"@ != "Haze"@) by { assert("Ice Pellets"@.len() != "Haze"@.len()); }
    assert("Ice Pellets"@ != "Fog"@) by { assert("Ice Pellets"@.len() != "Fog"@.len()); }
    assert("Ice Pellets"@ != "Ice Fog"@) by { assert("Ice Pellets"@.len() != "Ice Fog"@.len()); }
    assert("Ice Pellets"@ != "Fog Patches"@) by { assert("Ice Pellets"@[0] != "Fog Patches"@[0]); }
    assert("Ice Pellets"@ != "Shallow Fog"@) by { assert("Ice Pellets"@[0] != "Shallow Fog"@[0]); }
    assert("Ice Pellets"@ != "Mist"@) by { assert("Ice Pellets"@.len() != "Mist"@.len()); }
    assert("Ice Pellets"@ != "Drifting Snow"@) by { assert("Ice Pellets"@.len() != "Drifting Snow"@.len()); }
    assert("Ice Pellets"@ != "Ice Crystals"@) by { assert("Ice Pellets"@.len() != "Ice Crystals"@.len()); }
    assert("Ice Pellets"@ != "Snow Pellets"@) by { assert("Ice Pellets"@.len() != "Snow Pellets"@.len()); }
    assert("Hail"@ != "Sunny"@) by { assert("Hail"@.len() != "Sunny"@.len()); }
    assert("Hail"@ != "Mainly Sunny"@) by { assert("Hail"@.len() != "Mainly Sunny"@.len()); }
    assert("Hail"@ != "Partly Cloudy"@) by { assert("Hail"@.len() != "Partly Cloudy"@.len()); }
    assert("Hail"@ != "Mostly Cloudy"@) by { assert("Hail"@.len() != "Mostly Cloudy"@.len()); }
    assert("Hail"@ != "Light Rain Shower"@) by { assert("Hail"@.len() != "Light Rain Shower"@.len()); }
    assert("Hail"@ != "Light Rain Shower and Flurries"@) by { assert("Hail"@.len() != "Light Rain Shower and Flurries"@.len()); }
    assert("Hail"@ != "Light Flurries"@) by { assert("Hail"@.len() != "Light Flurries"@.len()); }
    assert("Hail"@ != "Cloudy"@) by { assert("Hail"@.len() != "Cloudy"@.len()); }
    assert("Hail"@ != "Precipitation"@) by { assert("Hail"@.len() != "Precipitation"@.len()); }
    assert("Hail"@ != "Squalls"@) by { assert("Hail"@.len() != "Squalls"@.len()); }
    assert("Hail"@ != "Light Precipitation"@) by { assert("Hail"@.len() != "Light Precipitation"@.len()); }
    assert("Hail"@ != "Heavy Precipitation"@) by { assert("Hail"@.len() != "Heavy Precipitation"@.len()); }
    assert("Hail"@ != "Rain Shower"@) by { assert("Hail"@.len() != "Rain Shower"@.len()); }
    assert("Hail"@ != "Light Rain and Drizzle"@) by { assert("Hail"@.len() != "Light Rain and Drizzle"@.len()); }
    assert("Hail"@ != "Light Rain"@) by { assert("Hail"@.len() != "Light Rain"@.len()); }
    assert("Hail"@ != "Rain"@) by { assert("Hail"@[0] != "Rain"@[0]); }
    assert("Hail"@ != "Rain and Drizzle"@) by { assert("Hail"@.len() != "Rain and Drizzle"@.len()); }
    assert("Hail"@ != "Heavy Rain and Drizzle"@) by { assert("Hail"@.len() != "Heavy Rain and Drizzle"@.len()); }
    assert("Hail"@ != "Heavy Rain Shower"@) by { assert("Hail"@.len() != "Heavy Rain Shower"@.len()); }
    assert("Hail"@ != "Heavy Rain"@) by { assert("Hail"@.len() != "Heavy Rain"@.len()); }
    assert("Hail"@ != "Light Freezing Drizzle"@) by { assert("Hail"@.len() != "Light Freezing Drizzle"@.len()); }
    assert("Hail"@ != "Light Freezing Rain"@) by { assert("Hail"@.len() != "Light Freezing Rain"@.len()); }
    assert("Hail"@ != "Heavy Freezing Drizzle"@) by { assert("Hail"@.len() != "Heavy Freezing Drizzle"@.len()); }
    assert("Hail"@ != "Heavy Freezing Rain"@) by { assert("Hail"@.len() != "Heavy Freezing Rain"@.len()); }
    assert("Hail"@ != "Freezing Drizzle"@) by { assert("Hail"@.len() != "Freezing Drizzle"@.len()); }
    assert("Hail"@ != "Freezing Rain"@) by { assert("Hail"@.len() != "Freezing Rain"@.len()); }
    assert("Hail"@ != "Rain and Flurries"@) by { assert("Hail"@.len() != "Rain and Flurries"@.len()); }
    assert("Hail"@ != "Rain and Snow"@) by { assert("Hail"@.len() != "Rain and Snow"@.len()); }
    assert("Hail"@ != "Heavy Rain Shower and Flurries"@) by { assert("Hail"@.len() != "Heavy Rain Shower and Flurries"@.len()); }
    assert("Hail"@ != "Heavy Rain and Snow"@) by { assert("Hail"@.len() != "Heavy Rain and Snow"@.len()); }
    assert("Hail"@ != "Light Snow"@) by { assert("Hail"@.len() != "Light Snow"@.len()); }
    assert("Hail"@ != "Snow"@) by { assert("Hail"@[0] != "Snow"@[0]); }
    assert("Hail"@ != "Flurries"@) by { assert("Hail"@.len() != "Flurries"@.len()); }
    assert("Hail"@ != "Heavy Flurries"@) by { assert("Hail"@.len() != "Heavy Flurries"@.len()); }
    assert("Hail"@ != "Heavy Snow"@) by { assert("Hail"@.len() != "Heavy Snow"@.len()); }
    assert("Hail"@ != "Thunderstorm with Rain"@) by { assert("Hail"@.len() != "Thunderstorm with Rain"@.len()); }
    assert("Hail"@ != "Thunderstorm with Heavy Rain"@) by { assert("Hail"@.len() != "Thunderstorm with Heavy Rain"@.len()); }
    assert("Hail"@ != "Thunderstorm with Light Rain"@) by { assert("Hail"@.len() != "Thunderstorm with Light Rain"@.len()); }
    assert("Hail"@ != "Thunderstorm"@) by { assert("Hail"@.len() != "Thunderstorm"@.len()); }
    assert("Hail"@ != "Heavy Thunderstorm"@) by { assert("Hail"@.len() != "Heavy Thunderstorm"@.len()); }
    assert("Hail"@ != "Heavy Thunderstorm with Rain"@) by { assert("Hail"@.len() != "Heavy Thunderstorm with Rain"@.len()); }
    assert("Hail"@ != "Haze"@) by { assert("Hail"@[2] != "Haze"@[2]); }
    assert("Hail"@ != "Fog"@) by { assert("Hail"@.len() != "Fog"@.len()); }
    assert("Hail"@ != "Ice Fog"@) by { assert("Hail"@.len() != "Ice Fog"@.len()); }
    assert("Hail"@ != "Fog Patches"@) by { assert("Hail"@.len() != "Fog Patches"@.len()); }
    assert("Hail"@ != "Shallow Fog"@) by { assert("Hail"@.len() != "Shallow Fog"@.len()); }
    assert("Hail"@ != "Mist"@) by { assert("Hail"@[0] != "Mist"@[0]); }
    assert("Hail"@ != "Drifting Snow"@) by { assert("Hail"@.len() != "Drifting Snow"@.len()); }
    assert("Hail"@ != "Ice Crystals"@) by { assert("Hail"@.len() != "Ice Crystals"@.len()); }
    assert("Hail"@ != "Snow Pellets"@) by { assert("Hail"@.len() != "Snow Pellets"@.len()); }
    assert("Hail"@ != "Ice Pellets"@) by { assert("Hail"@.len() != "Ice Pellets"@.len()); }
    assert("Snow Grains"@ != "Sunny"@) by { assert("Snow Grains"@.len() != "Sunny"@.len()); }
    assert("Snow Grains"@ != "Mainly Sunny"@) by { assert("Snow Grains"@.len() != "Mainly Sunny"@.len()); }
    assert("Snow Grains"@ != "Partly Cloudy"@) by { assert("Snow Grains"@.len() != "Partly Cloudy"@.len()); }
    assert("Snow Grains"@ != "Mostly Cloudy"@) by { assert("Snow Grains"@.len() != "Mostly Cloudy"@.len()); }
    assert("Snow Grains"@ != "Light Rain Shower"@) by { assert("Snow Grains"@.len() != "Light Rain Shower"@.len()); }
    assert("Snow Grains"@ != "Light Rain Shower and Flurries"@) by { assert("Snow Grains"@.len() != "Light Rain Shower and Flurries"@.len()); }
    assert("Snow Grains"@ != "Light Flurries"@) by { assert("Snow Grains"@.len() != "Light Flurries"@.len()); }
    assert("Snow Grains"@ != "Cloudy"@) by { assert("Snow Grains"@.len() != "Cloudy"@.len()); }
    assert("Snow Grains"@ != "Precipitation"@) by { assert("Snow Grains"@.len() != "Precipitation"@.len()); }
    assert("Snow Grains"@ != "Squalls"@) by { assert("Snow Grains"@.len() != "Squalls"@.len()); }
    assert("Snow Grains"@ != "Light Precipitation"@) by { assert("Snow Grains"@.len() != "Light Precipitation"@.len()); }
    assert("Snow Grains"@ != "Heavy Precipitation"@) by { assert("Snow Grains"@.len() != "Heavy Precipitation"@.len()); }
    assert("Snow Grains"@ != "Rain Shower"@) by { assert("Snow Grains"@[0] != "Rain Shower"@[0]); }
    assert("Snow Grains"@ != "Light Rain and Drizzle"@) by { assert("Snow Grains"@.len() != "Light Rain and Drizzle"@.len()); }
    assert("Snow Grains"@ != "Light Rain"@) by { assert("Snow Grains"@.len() != "Light Rain"@.len()); }
    assert("Snow Grains"@ != "Rain"@) by { assert("Snow Grains"@.len() != "Rain"@.len()); }
    assert("Snow Grains"@ != "Rain and Drizzle"@) by { assert("Snow Grains"@.len() != "Rain and Drizzle"@.len()); }
    assert("Snow Grains"@ != "Heavy Rain and Drizzle"@) by { assert("Snow Grains"@.len() != "Heavy Rain and Drizzle"@.len()); }
    assert("Snow Grains"@ != "Heavy Rain Shower"@) by { assert("Snow Grains"@.len() != "Heavy Rain Shower"@.len()); }
    assert("Snow Grains"@ != "Heavy Rain"@) by { assert("Snow Grains"@.len() != "Heavy Rain"@.len()); }
    assert("Snow Grains"@ != "Light Freezing Drizzle"@) by { assert("Snow Grains"@.len() != "Light Freezing Drizzle"@.len()); }
    assert("Snow Grains"@ != "Light Freezing Rain"@) by { assert("Snow Grains"@.len() != "Light Freezing Rain"@.len()); }
    assert("Snow Grains"@ != "Heavy Freezing Drizzle"@) by { assert("Snow Grains"@.len() != "Heavy Freezing Drizzle"@.len()); }
    assert("Snow Grains"@ != "Heavy Freezing Rain"@) by { assert("Snow Grains"@.len() != "Heavy Freezing Rain"@.len()); }
    assert("Snow Grains"@ != "Freezing Drizzle"@) by { assert("Snow Grains"@.len() != "Freezing Drizzle"@.len()); }
    assert("Snow Grains"@ != "Freezing Rain"@) by { assert("Snow Grains"@.len() != "Freezing Rain"@.len()); }
    assert("Snow Grains"@ != "Rain and Flurries"@) by { assert("Snow Grains"@.len() != "Rain and Flurries"@.len()); }
    assert("Snow Grains"@ != "Rain and Snow"@) by { assert("Snow Grains"@.len() != "Rain and Snow"@.len()); }
    assert("Snow Grains"@ != "Heavy Rain Shower and Flurries"@) by { assert("Snow Grains"@.len() != "Heavy Rain Shower and Flurries"@.len()); }
    assert("Snow Grains"@ != "Heavy Rain and Snow"@) by { assert("Snow Grains"@.len() != "Heavy Rain and Snow"@.len()); }
    assert("Snow Grains"@ != "Light Snow"@) by { assert("Snow Grains"@.len() != "Light Snow"@.len()); }
    assert("Snow Grains"@ != "Snow"@) by { assert("Snow Grains"@.len() != "Snow"@.len()); }
    assert("Snow Grains"@ != "Flurries"@) by { assert("Snow Grains"@.len() != "Flurries"@.len()); }
    assert("Snow Grains"@ != "Heavy Flurries"@) by { assert("Snow Grains"@.len() != "Heavy Flurries"@.len()); }
    assert("Snow Grains"@ != "Heavy Snow"@) by { assert("Snow Grains"@.len() != "Heavy Snow"@.len()); }
    assert("Snow Grains"@ != "Thunderstorm with Rain"@) by { assert("Snow Grains"@.len() != "Thunderstorm with Rain"@.len()); }
    assert("Snow Grains"@ != "Thunderstorm with Heavy Rain"@) by { assert("Snow Grains"@.len() != "Thunderstorm with Heavy Rain"@.len()); }
    assert("Snow Grains"@ != "Thunderstorm with Light Rain"@) by { assert("Snow Grains"@.len() != "Thunderstorm with Light Rain"@.len()); }
    assert("Snow Grains"@ != "Thunderstorm"@) by { assert("Snow Grains"@.len() != "Thunderstorm"@.len()); }
    assert("Snow Grains"@ != "Heavy Thunderstorm"@) by { assert("Snow Grains"@.len() != "Heavy Thunderstorm"@.len()); }
    assert("Snow Grains"@ != "Heavy Thunderstorm with Rain"@) by { assert("Snow Grains"@.len() != "Heavy Thunderstorm with Rain"@.len()); }
    assert("Snow Grains"@ != "Haze"@) by { assert("Snow Grains"@.len() != "Haze"@.len()); }
    assert("Snow Grains"@ != "Fog"@) by { assert("Snow Grains"@.len() != "Fog"@.len()); }
    assert("Snow Grains"@ != "Ice Fog"@) by { assert("Snow Grains"@.len() != "Ice Fog"@.len()); }
    assert("Snow Grains"@ != "Fog Patches"@) by { assert("Snow Grains"@[0] != "Fog Patches"@[0]); }
    assert("Snow Grains"@ != "Shallow Fog"@) by { assert("Snow Grains"@[1] != "Shallow Fog"@[1]); }
    assert("Snow Grains"@ != "Mist"@) by { assert("Snow Grains"@.len() != "Mist"@.len()); }
    assert("Snow Grains"@ != "Drifting Snow"@) by { assert("Snow Grains"@.len() != "Drifting Snow"@.len()); }
    assert("Snow Grains"@ != "Ice Crystals"@) by { assert("Snow Grains"@.len() != "Ice Crystals"@.len()); }
    assert("Snow Grains"@ != "Snow Pellets"@) by { assert("Snow Grains"@.len() != "Snow Pellets"@.len()); }
    assert("Snow Grains"@ != "Ice Pellets"@) by { assert("Snow Grains"@[0] != "Ice Pellets"@[0]); }
    assert("Snow Grains"@ != "Hail"@) by { assert("Snow Grains"@.len() != "Hail"@.len()); }
    assert("Light Drizzle"@ != "Sunny"@) by { assert("Light Drizzle"@.len() != "Sunny"@.len()); }
    assert("Light Drizzle"@ != "Mainly Sunny"@) by { assert("Light Drizzle"@.len() != "Mainly Sunny"@.len()); }
    assert("Light Drizzle"@ != "Partly Cloudy"@) by { assert("Light Drizzle"@[0] != "Partly Cloudy"@[0]); }
    assert("Light Drizzle"@ != "Mostly Cloudy"@) by { assert("Light Drizzle"@[0] != "Mostly Cloudy"@[0]); }
    assert("Light Drizzle"@ != "Light Rain Shower"@) by { assert("Light Drizzle"@.len() != "Light Rain Shower"@.len()); }
    assert("Light Drizzle"@ != "Light Rain Shower and Flurries"@) by { assert("Light Drizzle"@.len() != "Light Rain Shower and Flurries"@.len()); }
    assert("Light Drizzle"@ != "Light Flurries"@) by { assert("Light Drizzle"@.len() != "Light Flurries"@.len()); }
    assert("Light Drizzle"@ != "Cloudy"@) by { assert("Light Drizzle"@.len() != "Cloudy"@.len()); }
    assert("Light Drizzle"@ != "Precipitation"@) by { assert("Light Drizzle"@[0] != "Precipitation"@[0]); }
    assert("Light Drizzle"@ != "Squalls"@) by { assert("Light Drizzle"@.len() != "Squalls"@.len()); }
    assert("Light Drizzle"@ != "Light Precipitation"@) by { assert("Light Drizzle"@.len() != "Light Precipitation"@.len()); }
    assert("Light Drizzle"@ != "Heavy Precipitation"@) by { assert("Light Drizzle"@.len() != "Heavy Precipitation"@.len()); }
    assert("Light Drizzle"@ != "Rain Shower"@) by { assert("Light Drizzle"@.len() != "Rain Shower"@.len()); }
    assert("Light Drizzle"@ != "Light Rain and Drizzle"@) by { assert("Light Drizzle"@.len() != "Light Rain and Drizzle"@.len()); }
    assert("Light Drizzle"@ != "Light Rain"@) by { assert("Light Drizzle"@.len() != "Light Rain"@.len()); }
    assert("Light Drizzle"@ != "Rain"@) by { assert("Light Drizzle"@.len() != "Rain"@.len()); }
    assert("Light Drizzle"@ != "Rain and Drizzle"@) by { assert("Light Drizzle"@.len() != "Rain and Drizzle"@.len()); }
    assert("Light Drizzle"@ != "Heavy Rain and Drizzle"@) by { assert("Light Drizzle"@.len() != "Heavy Rain and Drizzle"@.len()); }
    assert("Light Drizzle"@ != "Heavy Rain Shower"@) by { assert("Light Drizzle"@.len() != "Heavy Rain Shower"@.len()); }
    assert("Light Drizzle"@ != "Heavy Rain"@) by { assert("Light Drizzle"@.len() != "Heavy Rain"@.len()); }
    assert("Light Drizzle"@ != "Light Freezing Drizzle"@) by { assert("Light Drizzle"@.len() != "Light Freezing Drizzle"@.len()); }
    assert("Light Drizzle"@ != "Light Freezing Rain"@) by { assert("Light Drizzle"@.len() != "Light Freezing Rain"@.len()); }
    assert("Light Drizzle"@ != "Heavy Freezing Drizzle"@) by { assert("Light Drizzle"@.len() != "Heavy Freezing Drizzle"@.len()); }
    assert("Light Drizzle"@ != "Heavy Freezing Rain"@) by { assert("Light Drizzle"@.len() != "Heavy Freezing Rain"@.len()); }
    assert("Light Drizzle"@ != "Freezing Drizzle"@) by { assert("Light Drizzle"@.len() != "Freezing Drizzle"@.len()); }
    assert("Light Drizzle"@ != "Freezing Rain"@) by { assert("Light Drizzle"@[0] != "Freezing Rain"@[0]); }
    assert("Light Drizzle"@ != "Rain and Flurries"@) by { assert("Light Drizzle"@.len() != "Rain and Flurries"@.len()); }
    assert("Light Drizzle"@ != "Rain and Snow"@) by { assert("Light Drizzle"@[0] != "Rain and Snow"@[0]); }
    assert("Light Drizzle"@ != "Heavy Rain Shower and Flurries"@) by { assert("Light Drizzle"@.len() != "Heavy Rain Shower and Flurries"@.len()); }
    assert("Light Drizzle"@ != "Heavy Rain and Snow"@) by { assert("Light Drizzle"@.len() != "Heavy Rain and Snow"@.len()); }
    assert("Light Drizzle"@ != "Light Snow"@) by { assert("Light Drizzle"@.len() != "Light Snow"@.len()); }
    assert("Light Drizzle"@ != "Snow"@) by { assert("Light Drizzle"@.len() != "Snow"@.len()); }
    assert("Light Drizzle"@ != "Flurries"@) by { assert("Light Drizzle"@.len() != "Flurries"@.len()); }
    assert("Light Drizzle"@ != "Heavy Flurries"@) by { assert("Light Drizzle"@.len() != "Heavy Flurries"@.len()); }
    assert("Light Drizzle"@ != "Heavy Snow"@) by { assert("Light Drizzle"@.len() != "Heavy Snow"@.len()); }
    assert("Light Drizzle"@ != "Thunderstorm with Rain"@) by { assert("Light Drizzle"@.len() != "Thunderstorm with Rain"@.len()); }
    assert("Light Drizzle"@ != "Thunderstorm with Heavy Rain"@) by { assert("Light Drizzle"@.len() != "Thunderstorm with Heavy Rain"@.len()); }
    assert("Light Drizzle"@ != "Thunderstorm with Light Rain"@) by { assert("Light Drizzle"@.len() != "Thunderstorm with Light Rain"@.len()); }
    assert("Light Drizzle"@ != "Thunderstorm"@) by { assert("Light Drizzle"@.len() != "Thunderstorm"@.len()); }
    assert("Light Drizzle"@ != "Heavy Thunderstorm"@) by { assert("Light Drizzle"@.len() != "Heavy Thunderstorm"@.len()); }
    assert("Light Drizzle"@ != "Heavy Thunderstorm with Rain"@) by { assert("Light Drizzle"@.len() != "Heavy Thunderstorm with Rain"@.len()); }
    assert("Light Drizzle"@ != "Haze"@) by { assert("Light Drizzle"@.len() != "Haze"@.len()); }
    assert("Light Drizzle"@ != "Fog"@) by { assert("Light Drizzle"@.len() != "Fog"@.len()); }
    assert("Light Drizzle"@ != "Ice Fog"@) by { assert("Light Drizzle"@.len() != "Ice Fog"@.len()); }
    assert("Light Drizzle"@ != "Fog Patches"@) by { assert("Light Drizzle"@.len() != "Fog Patches"@.len()); }
    assert("Light Drizzle"@ != "Shallow Fog"@) by { assert("Light Drizzle"@.len() != "Shallow Fog"@.len()); }
    assert("Light Drizzle"@ != "Mist"@) by { assert("Light Drizzle"@.len() != "Mist"@.len()); }
    assert("Light Drizzle"@ != "Drifting Snow"@) by { assert("Light Drizzle"@[0] != "Drifting Snow"@[0]); }
    assert("Light Drizzle"@ != "Ice Crystals"@) by { assert("Light Drizzle"@.len() != "Ice Crystals"@.len()); }
    assert("Light Drizzle"@ != "Snow Pellets"@) by { assert("Light Drizzle"@.len() != "Snow Pellets"@.len()); }
    assert("Light Drizzle"@ != "Ice Pellets"@) by { assert("Light Drizzle"@.len() != "Ice Pellets"@.len()); }
    assert("Light Drizzle"@ != "Hail"@) by { assert("Light Drizzle"@.len() != "Hail"@.len()); }
    assert("Light Drizzle"@ != "Snow Grains"@) by { assert("Light Drizzle"@.len() != "Snow Grains"@.len()); }
    assert("Heavy Drizzle"@ != "Sunny"@) by { assert("Heavy Drizzle"@.len() != "Sunny"@.len()); }
    assert("Heavy Drizzle"@ != "Mainly Sunny"@) by { assert("Heavy Drizzle"@.len() != "Mainly Sunny"@.len()); }
    assert("Heavy Drizzle"@ != "Partly Cloudy"@) by { assert("Heavy Drizzle"@[0] != "Partly Cloudy"@[0]); }
    assert("Heavy Drizzle"@ != "Mostly Cloudy"@) by { assert("Heavy Drizzle"@[0] != "Mostly Cloudy"@[0]); }
    assert("Heavy Drizzle"@ != "Light Rain Shower"@) by { assert("Heavy Drizzle"@.len() != "Light Rain Shower"@.len()); }
    assert("Heavy Drizzle"@ != "Light Rain Shower and Flurries"@) by { assert("Heavy Drizzle"@.len() != "Light Rain Shower and Flurries"@.len()); }
    assert("Heavy Drizzle"@ != "Light Flurries"@) by { assert("Heavy Drizzle"@.len() != "Light Flurries"@.len()); }
    assert("Heavy Drizzle"@ != "Cloudy"@) by { assert("Heavy Drizzle"@.len() != "Cloudy"@.len()); }
    assert("Heavy Drizzle"@ != "Precipitation"@) by { assert("Heavy Drizzle"@[0] != "Precipitation"@[0]); }
    assert("Heavy Drizzle"@ != "Squalls"@) by { assert("Heavy Drizzle"@.len() != "Squalls"@.len()); }
    assert("Heavy Drizzle"@ != "Light Precipitation"@) by { assert("Heavy Drizzle"@.len() != "Light Precipitation"@.len()); }
    assert("Heavy Drizzle"@ != "Heavy Precipitation"@) by { assert("Heavy Drizzle"@.len() != "Heavy Precipitation"@.len()); }
    assert("Heavy Drizzle"@ != "Rain Shower"@) by { assert("Heavy Drizzle"@.len() != "Rain Shower"@.len()); }
    assert("Heavy Drizzle"@ != "Light Rain and Drizzle"@) by { assert("Heavy Drizzle"@.len() != "Light Rain and Drizzle"@.len()); }
    assert("Heavy Drizzle"@ != "Light Rain"@) by { assert("Heavy Drizzle"@.len() != "Light Rain"@.len()); }
    assert("Heavy Drizzle"@ != "Rain"@) by { assert("Heavy Drizzle"@.len() != "Rain"@.len()); }
    assert("Heavy Drizzle"@ != "Rain and Drizzle"@) by { assert("Heavy Drizzle"@.len() != "Rain and Drizzle"@.len()); }
    assert("Heavy Drizzle"@ != "Heavy Rain and Drizzle"@) by { assert("Heavy Drizzle"@.len() != "Heavy Rain and Drizzle"@.len()); }
    assert("Heavy Drizzle"@ != "Heavy Rain Shower"@) by { assert("Heavy Drizzle"@.len() != "Heavy Rain Shower"@.len()); }
    assert("Heavy Drizzle"@ != "Heavy Rain"@) by { assert("Heavy Drizzle"@.len() != "Heavy Rain"@.len()); }
    assert("Heavy Drizzle"@ != "Light Freezing Drizzle"@) by { assert("Heavy Drizzle"@.len() != "Light Freezing Drizzle"@.len()); }
    assert("Heavy Drizzle"@ != "Light Freezing Rain"@) by { assert("Heavy Drizzle"@.len() != "Light Freezing Rain"@.len()); }
    assert("Heavy Drizzle"@ != "Heavy Freezing Drizzle"@) by { assert("Heavy Drizzle"@.len() != "Heavy Freezing Drizzle"@.len()); }
    assert("Heavy Drizzle"@ != "Heavy Freezing Rain"@) by { assert("Heavy Drizzle"@.len() != "Heavy Freezing Rain"@.len()); }
    assert("Heavy Drizzle"@ != "Freezing Drizzle"@) by { assert("Heavy Drizzle"@.len() != "Freezing Drizzle"@.len()); }
    assert("Heavy Drizzle"@ != "Freezing Rain"@) by { assert("Heavy Drizzle"@[0] != "Freezing Rain"@[0]); }
    assert("Heavy Drizzle"@ != "Rain and Flurries"@) by { assert("Heavy Drizzle"@.len() != "Rain and Flurries"@.len()); }
    assert("Heavy Drizzle"@ != "Rain and Snow"@) by { assert("Heavy Drizzle"@[0] != "Rain and Snow"@[0]); }
    assert("Heavy Drizzle"@ != "Heavy Rain Shower and Flurries"@) by { assert("Heavy Drizzle"@.len() != "Heavy Rain Shower and Flurries"@.len()); }
    assert("Heavy Drizzle"@ != "Heavy Rain and Snow"@) by { assert("Heavy Drizzle"@.len() != "Heavy Rain and Snow"@.len()); }
    assert("Heavy Drizzle"@ != "Light Snow"@) by { assert("Heavy Drizzle"@.len() != "Light Snow"@.len()); }
    assert("Heavy Drizzle"@ != "Snow"@) by { assert("Heavy Drizzle"@.len() != "Snow"@.len()); }
    assert("Heavy Drizzle"@ != "Flurries"@) by { assert("Heavy Drizzle"@.len() != "Flurries"@.len()); }
    assert("Heavy Drizzle"@ != "Heavy Flurries"@) by { assert("Heavy Drizzle"@.len() != "Heavy Flurries"@.len()); }
    assert("Heavy Drizzle"@ != "Heavy Snow"@) by { assert("Heavy Drizzle"@.len() != "Heavy Snow"@.len()); }
    assert("Heavy Drizzle"@ != "Thunderstorm with Rain"@) by { assert("Heavy Drizzle"@.len() != "Thunderstorm with Rain"@.len()); }
    assert("Heavy Drizzle"@ != "Thunderstorm with Heavy Rain"@) by { assert("Heavy Drizzle"@.len() != "Thunderstorm with Heavy Rain"@.len()); }
    assert("Heavy Drizzle"@ != "Thunderstorm with Light Rain"@) by { assert("Heavy Drizzle"@.len() != "Thunderstorm with Light Rain"@.len()); }
    assert("Heavy Drizzle"@ != "Thunderstorm"@) by { assert("Heavy Drizzle"@.len() != "Thunderstorm"@.len()); }
    assert("Heavy Drizzle"@ != "Heavy Thunderstorm"@) by { assert("Heavy Drizzle"@.len() != "Heavy Thunderstorm"@.len()); }
    assert("Heavy Drizzle"@ != "Heavy Thunderstorm with Rain"@) by { assert("Heavy Drizzle"@.len() != "Heavy Thunderstorm with Rain"@.len()); }
    assert("Heavy Drizzle"@ != "Haze"@) by { assert("Heavy Drizzle"@.len() != "Haze"@.len()); }
    assert("Heavy Drizzle"@ != "Fog"@) by { assert("Heavy Drizzle"@.len() != "Fog"@.len()); }
    assert("Heavy Drizzle"@ != "Ice Fog"@) by { assert("Heavy Drizzle"@.len() != "Ice Fog"@.len()); }
    assert("Heavy Drizzle"@ != "Fog Patches"@) by { assert("Heavy Drizzle"@.len() != "Fog Patches"@.len()); }
    assert("Heavy Drizzle"@ != "Shallow Fog"@) by { assert("Heavy Drizzle"@.len() != "Shallow Fog"@.len()); }
    assert("Heavy Drizzle"@ != "Mist"@) by { assert("Heavy Drizzle"@.len() != "Mist"@.len()); }
    assert("Heavy Drizzle"@ != "Drifting Snow"@) by { assert("Heavy Drizzle"@[0] != "Drifting Snow"@[0]); }
    assert("Heavy Drizzle"@ != "Ice Crystals"@) by { assert("Heavy Drizzle"@.len() != "Ice Crystals"@.len()); }
    assert("Heavy Drizzle"@ != "Snow Pellets"@) by { assert("Heavy Drizzle"@.len() != "Snow Pellets"@.len()); }
    assert("Heavy Drizzle"@ != "Ice Pellets"@) by { assert("Heavy Drizzle"@.len() != "Ice Pellets"@.len()); }
    assert("Heavy Drizzle"@ != "Hail"@) by { assert("Heavy Drizzle"@.len() != "Hail"@.len()); }
    assert("Heavy Drizzle"@ != "Snow Grains"@) by { assert("Heavy Drizzle"@.len() != "Snow Grains"@.len()); }
    assert("Heavy Drizzle"@ != "Light Drizzle"@) by { assert("Heavy Drizzle"@[0] != "Light Drizzle"@[0]); }
    assert("Drizzle"@ != "Sunny"@) by { assert("Drizzle"@.len() != "Sunny"@.len()); }
    assert("Drizzle"@ != "Mainly Sunny"@) by { assert("Drizzle"@.len() != "Mainly Sunny"@.len()); }
    assert("Drizzle"@ != "Partly Cloudy"@) by { assert("Drizzle"@.len() != "Partly Cloudy"@.len()); }
    assert("Drizzle"@ != "Mostly Cloudy"@) by { assert("Drizzle"@.len() != "Mostly Cloudy"@.len()); }
    assert("Drizzle"@ != "Light Rain Shower"@) by { assert("Drizzle"@.len() != "Light Rain Shower"@.len()); }
    assert("Drizzle"@ != "Light Rain Shower and Flurries"@) by { assert("Drizzle"@.len() != "Light Rain Shower and Flurries"@.len()); }
    assert("Drizzle"@ != "Light Flurries"@) by { assert("Drizzle"@.len() != "Light Flurries"@.len()); }
    assert("Drizzle"@ != "Cloudy"@) by { assert("Drizzle"@.len() != "Cloudy"@.len()); }
    assert("Drizzle"@ != "Precipitation"@) by { assert("Drizzle"@.len() != "Precipitation"@.len()); }
    assert("Drizzle"@ != "Squalls"@) by { assert("Drizzle"@[0] != "Squalls"@[0]); }
    assert("Drizzle"@ != "Light Precipitation"@) by { assert("Drizzle"@.len() != "Light Precipitation"@.len()); }
    assert("Drizzle"@ != "Heavy Precipitation"@) by { assert("Drizzle"@.len() != "Heavy Precipitation"@.len()); }
    assert("Drizzle"@ != "Rain Shower"@) by { assert("Drizzle"@.len() != "Rain Shower"@.len()); }
    assert("Drizzle"@ != "Light Rain and Drizzle"@) by { assert("Drizzle"@.len() != "Light Rain and Drizzle"@.len()); }
    assert("Drizzle"@ != "Light Rain"@) by { assert("Drizzle"@.len() != "Light Rain"@.len()); }
    assert("Drizzle"@ != "Rain"@) by { assert("Drizzle"@.len() != "Rain"@.len()); }
    assert("Drizzle"@ != "Rain and Drizzle"@) by { assert("Drizzle"@.len() != "Rain and Drizzle"@.len()); }
    assert("Drizzle"@ != "Heavy Rain and Drizzle"@) by { assert("Drizzle"@.len() != "Heavy Rain and Drizzle"@.len()); }
    assert("Drizzle"@ != "Heavy Rain Shower"@) by { assert("Drizzle"@.len() != "Heavy Rain Shower"@.len()); }
    assert("Drizzle"@ != "Heavy Rain"@) by { assert("Drizzle"@.len() != "Heavy Rain"@.len()); }
    assert("Drizzle"@ != "Light Freezing Drizzle"@) by { assert("Drizzle"@.len() != "Light Freezing Drizzle"@.len()); }
    assert("Drizzle"@ != "Light Freezing Rain"@) by { assert("Drizzle"@.len() != "Light Freezing Rain"@.len()); }
    assert("Drizzle"@ != "Heavy Freezing Drizzle"@) by { assert("Drizzle"@.len() != "Heavy Freezing Drizzle"@.len()); }
    assert("Drizzle"@ != "Heavy Freezing Rain"@) by { assert("Drizzle"@.len() != "Heavy Freezing Rain"@.len()); }
    assert("Drizzle"@ != "Freezing Drizzle"@) by { assert("Drizzle"@.len() != "Freezing Drizzle"@.len()); }
    assert("Drizzle"@ != "Freezing Rain"@) by { assert("Drizzle"@.len() != "Freezing Rain"@.len()); }
    assert("Drizzle"@ != "Rain and Flurries"@) by { assert("Drizzle"@.len() != "Rain and Flurries"@.len()); }
    assert("Drizzle"@ != "Rain and Snow"@) by { assert("Drizzle"@.len() != "Rain and Snow"@.len()); }
    assert("Drizzle"@ != "Heavy Rain Shower and Flurries"@) by { assert("Drizzle"@.len() != "Heavy Rain Shower and Flurries"@.len()); }
    assert("Drizzle"@ != "Heavy Rain and Snow"@) by { assert("Drizzle"@.len() != "Heavy Rain and Snow"@.len()); }
    assert("Drizzle"@ != "Light Snow"@) by { assert("Drizzle"@.len() != "Light Snow"@.len()); }
    assert("Drizzle"@ != "Snow"@) by { assert("Drizzle"@.len() != "Snow"@.len()); }
    assert("Drizzle"@ != "Flurries"@) by { assert("Drizzle"@.len() != "Flurries"@.len()); }
    assert("Drizzle"@ != "Heavy Flurries"@) by { assert("Drizzle"@.len() != "Heavy Flurries"@.len()); }
    assert("Drizzle"@ != "Heavy Snow"@) by { assert("Drizzle"@.len() != "Heavy Snow"@.len()); }
    assert("Drizzle"@ != "Thunderstorm with Rain"@) by { assert("Drizzle"@.len() != "Thunderstorm with Rain"@.len()); }
    assert("Drizzle"@ != "Thunderstorm with Heavy Rain"@) by { assert("Drizzle"@.len() != "Thunderstorm with Heavy Rain"@.len()); }
    assert("Drizzle"@ != "Thunderstorm with Light Rain"@) by { assert("Drizzle"@.len() != "Thunderstorm with Light Rain"@.len()); }
    assert("Drizzle"@ != "Thunderstorm"@) by { assert("Drizzle"@.len() != "Thunderstorm"@.len()); }
    assert("Drizzle"@ != "Heavy Thunderstorm"@) by { assert("Drizzle"@.len() != "Heavy Thunderstorm"@.len()); }
    assert("Drizzle"@ != "Heavy Thunderstorm with Rain"@) by { assert("Drizzle"@.len() != "Heavy Thunderstorm with Rain"@.len()); }
    assert("Drizzle"@ != "Haze"@) by { assert("Drizzle"@.len() != "Haze"@.len()); }
    assert("Drizzle"@ != "Fog"@) by { assert("Drizzle"@.len() != "Fog"@.len()); }
    assert("Drizzle"@ != "Ice Fog"@) by { assert("Drizzle"@[0] != "Ice Fog"@[0]); }
    assert("Drizzle"@ != "Fog Patches"@) by { assert("Drizzle"@.len() != "Fog Patches"@.len()); }
    assert("Drizzle"@ != "Shallow Fog"@) by { assert("Drizzle"@.len() != "Shallow Fog"@.len()); }
    assert("Drizzle"@ != "Mist"@) by { assert("Drizzle"@.len() != "Mist"@.len()); }
    assert("Drizzle"@ != "Drifting Snow"@) by { assert("Drizzle"@.len() != "Drifting Snow"@.len()); }
    assert("Drizzle"@ != "Ice Crystals"@) by { assert("Drizzle"@.len() != "Ice Crystals"@.len()); }
    assert("Drizzle"@ != "Snow Pellets"@) by { assert("Drizzle"@.len() != "Snow Pellets"@.len()); }
    assert("Drizzle"@ != "Ice Pellets"@) by { assert("Drizzle"@.len() != "Ice Pellets"@.len()); }
    assert("Drizzle"@ != "Hail"@) by { assert("Drizzle"@.len() != "Hail"@.len()); }
    assert("Drizzle"@ != "Snow Grains"@) by { assert("Drizzle"@.len() != "Snow Grains"@.len()); }
    assert("Drizzle"@ != "Light Drizzle"@) by { assert("Drizzle"@.len() != "Light Drizzle"@.len()); }
    assert("Drizzle"@ != "Heavy Drizzle"@) by { assert("Drizzle"@.len() != "Heavy Drizzle"@.len()); }
    assert("Clear"@ != "Sunny"@) by { assert("Clear"@[0] != "Sunny"@[0]); }
    assert("Clear"@ != "Mainly Sunny"@) by { assert("Clear"@.len() != "Mainly Sunny"@.len()); }
    assert("Clear"@ != "Partly Cloudy"@) by { assert("Clear"@.len() != "Partly Cloudy"@.len()); }
    assert("Clear"@ != "Mostly Cloudy"@) by { assert("Clear"@.len() != "Mostly Cloudy"@.len()); }
    assert("Clear"@ != "Light Rain Shower"@) by { assert("Clear"@.len() != "Light Rain Shower"@.len()); }
    assert("Clear"@ != "Light Rain Shower and Flurries"@) by { assert("Clear"@.len() != "Light Rain Shower and Flurries"@.len()); }
    assert("Clear"@ != "Light Flurries"@) by { assert("Clear"@.len() != "Light Flurries"@.len()); }
    assert("Clear"@ != "Cloudy"@) by { assert("Clear"@.len() != "Cloudy"@.len()); }
    assert("Clear"@ != "Precipitation"@) by { assert("Clear"@.len() != "Precipitation"@.len()); }
    assert("Clear"@ != "Squalls"@) by { assert("Clear"@.len() != "Squalls"@.len()); }
    assert("Clear"@ != "Light Precipitation"@) by { assert("Clear"@.len() != "Light Precipitation"@.len()); }
    assert("Clear"@ != "Heavy Precipitation"@) by { assert("Clear"@.len() != "Heavy Precipitation"@.len()); }
    assert("Clear"@ != "Rain Shower"@) by { assert("Clear"@.len() != "Rain Shower"@.len()); }
    assert("Clear"@ != "Light Rain and Drizzle"@) by { assert("Clear"@.len() != "Light Rain and Drizzle"@.len()); }
    assert("Clear"@ != "Light Rain"@) by { assert("Clear"@.len() != "Light Rain"@.len()); }
    assert("Clear"@ != "Rain"@) by { assert("Clear"@.len() != "Rain"@.len()); }
    assert("Clear"@ != "Rain and Drizzle"@) by { assert("Clear"@.len() != "Rain and Drizzle"@.len()); }
    assert("Clear"@ != "Heavy Rain and Drizzle"@) by { assert("Clear"@.len() != "Heavy Rain and Drizzle"@.len()); }
    assert("Clear"@ != "Heavy Rain Shower"@) by { assert("Clear"@.len() != "Heavy Rain Shower"@.len()); }
    assert("Clear"@ != "Heavy Rain"@) by { assert("Clear"@.len() != "Heavy Rain"@.len()); }
    assert("Clear"@ != "Light Freezing Drizzle"@) by { assert("Clear"@.len() != "Light Freezing Drizzle"@.len()); }
    assert("Clear"@ != "Light Freezing Rain"@) by { assert("Clear"@.len() != "Light Freezing Rain"@.len()); }
    assert("Clear"@ != "Heavy Freezing Drizzle"@) by { assert("Clear"@.len() != "Heavy Freezing Drizzle"@.len()); }
    assert("Clear"@ != "Heavy Freezing Rain"@) by { assert("Clear"@.len() != "Heavy Freezing Rain"@.len()); }
    assert("Clear"@ != "Freezing Drizzle"@) by { assert("Clear"@.len() != "Freezing Drizzle"@.len()); }
    assert("Clear"@ != "Freezing Rain"@) by { assert("Clear"@.len() != "Freezing Rain"@.len()); }
    assert("Clear"@ != "Rain and Flurries"@) by { assert("Clear"@.len() != "Rain and Flurries"@.len()); }
    assert("Clear"@ != "Rain and Snow"@) by { assert("Clear"@.len() != "Rain and Snow"@.len()); }
    assert("Clear"@ != "Heavy Rain Shower and Flurries"@) by { assert("Clear"@.len() != "Heavy Rain Shower and Flurries"@.len()); }
    assert("Clear"@ != "Heavy Rain and Snow"@) by { assert("Clear"@.len() != "Heavy Rain and Snow"@.len()); }
    assert("Clear"@ != "Light Snow"@) by { assert("Clear"@.len() != "Light Snow"@.len()); }
    assert("Clear"@ != "Snow"@) by { assert("Clear"@.len() != "Snow"@.len()); }
    assert("Clear"@ != "Flurries"@) by { assert("Clear"@.len() != "Flurries"@.len()); }
    assert("Clear"@ != "Heavy Flurries"@) by { assert("Clear"@.len() != "Heavy Flurries"@.len()); }
    assert("Clear"@ != "Heavy Snow"@) by { assert("Clear"@.len() != "Heavy Snow"@.len()); }
    assert("Clear"@ != "Thunderstorm with Rain"@) by { assert("Clear"@.len() != "Thunderstorm with Rain"@.len()); }
    assert("Clear"@ != "Thunderstorm with Heavy Rain"@) by { assert("Clear"@.len() != "Thunderstorm with Heavy Rain"@.len()); }
    assert("Clear"@ != "Thunderstorm with Light Rain"@) by { assert("Clear"@.len() != "Thunderstorm with Light Rain"@.len()); }
    assert("Clear"@ != "Thunderstorm"@) by { assert("Clear"@.len() != "Thunderstorm"@.len()); }
    assert("Clear"@ != "Heavy Thunderstorm"@) by { assert("Clear"@.len() != "Heavy Thunderstorm"@.len()); }
    assert("Clear"@ != "Heavy Thunderstorm with Rain"@) by { assert("Clear"@.len() != "Heavy Thunderstorm with Rain"@.len()); }
    assert("Clear"@ != "Haze"@) by { assert("Clear"@.len() != "Haze"@.len()); }
    assert("Clear"@ != "Fog"@) by { assert("Clear"@.len() != "Fog"@.len()); }
    assert("Clear"@ != "Ice Fog"@) by { assert("Clear"@.len() != "Ice Fog"@.len()); }
    assert("Clear"@ != "Fog Patches"@) by { assert("Clear"@.len() != "Fog Patches"@.len()); }
    assert("Clear"@ != "Shallow Fog"@) by { assert("Clear"@.len() != "Shallow Fog"@.len()); }
    assert("Clear"@ != "Mist"@) by { assert("Clear"@.len() != "Mist"@.len()); }
    assert("Clear"@ != "Drifting Snow"@) by { assert("Clear"@.len() != "Drifting Snow"@.len()); }
    assert("Clear"@ != "Ice Crystals"@) by { assert("Clear"@.len() != "Ice Crystals"@.len()); }
    assert("Clear"@ != "Snow Pellets"@) by { assert("Clear"@.len() != "Snow Pellets"@.len()); }
    assert("Clear"@ != "Ice Pellets"@) by { assert("Clear"@.len() != "Ice Pellets"@.len()); }
    assert("Clear"@ != "Hail"@) by { assert("Clear"@.len() != "Hail"@.len()); }
    assert("Clear"@ != "Snow Grains"@) by { assert("Clear"@.len() != "Snow Grains"@.len()); }
    assert("Clear"@ != "Light Drizzle"@) by { assert("Clear"@.len() != "Light Drizzle"@.len()); }
    assert("Clear"@ != "Heavy Drizzle"@) by { assert("Clear"@.len() != "Heavy Drizzle"@.len()); }
    assert("Clear"@ != "Drizzle"@) by { assert("Clear"@.len() != "Drizzle"@.len()); }
    assert("Mainly Clear"@ != "Sunny"@) by { assert("Mainly Clear"@.len() != "Sunny"@.len()); }
    assert("Mainly Clear"@ != "Mainly Sunny"@) by { assert("Mainly Clear"@[7] != "Mainly Sunny"@[7]); }
    assert("Mainly Clear"@ != "Partly Cloudy"@) by { assert("Mainly Clear"@.len() != "Partly Cloudy"@.len()); }
    assert("Mainly Clear"@ != "Mostly Cloudy"@) by { assert("Mainly Clear"@.len() != "Mostly Cloudy"@.len()); }
    assert("Mainly Clear"@ != "Light Rain Shower"@) by { assert("Mainly Clear"@.len() != "Light Rain Shower"@.len()); }
    assert("Mainly Clear"@ != "Light Rain Shower and Flurries"@) by { assert("Mainly Clear"@.len() != "Light Rain Shower and Flurries"@.len()); }
    assert("Mainly Clear"@ != "Light Flurries"@) by { assert("Mainly Clear"@.len() != "Light Flurries"@.len()); }
    assert("Mainly Clear"@ != "Cloudy"@) by { assert("Mainly Clear"@.len() != "Cloudy"@.len()); }
    assert("Mainly Clear"@ != "Precipitation"@) by { assert("Mainly Clear"@.len() != "Precipitation"@.len()); }
    assert("Mainly Clear"@ != "Squalls"@) by { assert("Mainly Clear"@.len() != "Squalls"@.len()); }
    assert("Mainly Clear"@ != "Light Precipitation"@) by { assert("Mainly Clear"@.len() != "Light Precipitation"@.len()); }
    assert("Mainly Clear"@ != "Heavy Precipitation"@) by { assert("Mainly Clear"@.len() != "Heavy Precipitation"@.len()); }
    assert("Mainly Clear"@ != "Rain Shower"@) by { assert("Mainly Clear"@.len() != "Rain Shower"@.len()); }
    assert("Mainly Clear"@ != "Light Rain and Drizzle"@) by { assert("Mainly Clear"@.len() != "Light Rain and Drizzle"@.len()); }
    assert("Mainly Clear"@ != "Light Rain"@) by { assert("Mainly Clear"@.len() != "Light Rain"@.len()); }
    assert("Mainly Clear"@ != "Rain"@) by { assert("Mainly Clear"@.len() != "Rain"@.len()); }
    assert("Mainly Clear"@ != "Rain and Drizzle"@) by { assert("Mainly Clear"@.len() != "Rain and Drizzle"@.len()); }
    assert("Mainly Clear"@ != "Heavy Rain and Drizzle"@) by { assert("Mainly Clear"@.len() != "Heavy Rain and Drizzle"@.len()); }
    assert("Mainly Clear"@ != "Heavy Rain Shower"@) by { assert("Mainly Clear"@.len() != "Heavy Rain Shower"@.len()); }
    assert("Mainly Clear"@ != "Heavy Rain"@) by { assert("Mainly Clear"@.len() != "Heavy Rain"@.len()); }
    assert("Mainly Clear"@ != "Light Freezing Drizzle"@) by { assert("Mainly Clear"@.len() != "Light Freezing Drizzle"@.len()); }
    assert("Mainly Clear"@ != "Light Freezing Rain"@) by { assert("Mainly Clear"@.len() != "Light Freezing Rain"@.len()); }
    assert("Mainly Clear"@ != "Heavy Freezing Drizzle"@) by { assert("Mainly Clear"@.len() != "Heavy Freezing Drizzle"@.len()); }
    assert("Mainly Clear"@ != "Heavy Freezing Rain"@) by { assert("Mainly Clear"@.len() != "Heavy Freezing Rain"@.len()); }
    assert("Mainly Clear"@ != "Freezing Drizzle"@) by { assert("Mainly Clear"@.len() != "Freezing Drizzle"@.len()); }
    assert("Mainly Clear"@ != "Freezing Rain"@) by { assert("Mainly Clear"@.len() != "Freezing Rain"@.len()); }
    assert("Mainly Clear"@ != "Rain and Flurries"@) by { assert("Mainly Clear"@.len() != "Rain and Flurries"@.len()); }
    assert("Mainly Clear"@ != "Rain and Snow"@) by { assert("Mainly Clear"@.len() != "Rain and Snow"@.len()); }
    assert("Mainly Clear"@ != "Heavy Rain Shower and Flurries"@) by { assert("Mainly Clear"@.len() != "Heavy Rain Shower and Flurries"@.len()); }
    assert("Mainly Clear"@ != "Heavy Rain and Snow"@) by { assert("Mainly Clear"@.len() != "Heavy Rain and Snow"@.len()); }
    assert("Mainly Clear"@ != "Light Snow"@) by { assert("Mainly Clear"@.len() != "Light Snow"@.len()); }
    assert("Mainly Clear"@ != "Snow"@) by { assert("Mainly Clear"@.len() != "Snow"@.len()); }
    assert("Mainly Clear"@ != "Flurries"@) by { assert("Mainly Clear"@.len() != "Flurries"@.len()); }
    assert("Mainly Clear"@ != "Heavy Flurries"@) by { assert("Mainly Clear"@.len() != "Heavy Flurries"@.len()); }
    assert("Mainly Clear"@ != "Heavy Snow"@) by { assert("Mainly Clear"@.len() != "Heavy Snow"@.len()); }
    assert("Mainly Clear"@ != "Thunderstorm with Rain"@) by { assert("Mainly Clear"@.len() != "Thunderstorm with Rain"@.len()); }
    assert("Mainly Clear"@ != "Thunderstorm with Heavy Rain"@) by { assert("Mainly Clear"@.len() != "Thunderstorm with Heavy Rain"@.len()); }
    assert("Mainly Clear"@ != "Thunderstorm with Light Rain"@) by { assert("Mainly Clear"@.len() != "Thunderstorm with Light Rain"@.len()); }
    assert("Mainly Clear"@ != "Thunderstorm"@) by { assert("Mainly Clear"@[0] != "Thunderstorm"@[0]); }
    assert("Mainly Clear"@ != "Heavy Thunderstorm"@) by { assert("Mainly Clear"@.len() != "Heavy Thunderstorm"@.len()); }
    assert("Mainly Clear"@ != "Heavy Thunderstorm with Rain"@) by { assert("Mainly Clear"@.len() != "Heavy Thunderstorm with Rain"@.len()); }
    assert("Mainly Clear"@ != "Haze"@) by { assert("Mainly Clear"@.len() != "Haze"@.len()); }
    assert("Mainly Clear"@ != "Fog"@) by { assert("Mainly Clear"@.len() != "Fog"@.len()); }
    assert("Mainly Clear"@ != "Ice Fog"@) by { assert("Mainly Clear"@.len() != "Ice Fog"@.len()); }
    assert("Mainly Clear"@ != "Fog Patches"@) by { assert("Mainly Clear"@.len() != "Fog Patches"@.len()); }
    assert("Mainly Clear"@ != "Shallow Fog"@) by { assert("Mainly Clear"@.len() != "Shallow Fog"@.len()); }
    assert("Mainly Clear"@ != "Mist"@) by { assert("Mainly Clear"@.len() != "Mist"@.len()); }
    assert("Mainly Clear"@ != "Drifting Snow"@) by { assert("Mainly Clear"@.len() != "Drifting Snow"@.len()); }
    assert("Mainly Clear"@ != "Ice Crystals"@) by { assert("Mainly Clear"@[0] != "Ice Crystals"@[0]); }
    assert("Mainly Clear"@ != "Snow Pellets"@) by { assert("Mainly Clear"@[0] != "Snow Pellets"@[0]); }
    assert("Mainly Clear"@ != "Ice Pellets"@) by { assert("Mainly Clear"@.len() != "Ice Pellets"@.len()); }
    assert("Mainly Clear"@ != "Hail"@) by { assert("Mainly Clear"@.len() != "Hail"@.len()); }
    assert("Mainly Clear"@ != "Snow Grains"@) by { assert("Mainly Clear"@.len() != "Snow Grains"@.len()); }
    assert("Mainly Clear"@ != "Light Drizzle"@) by { assert("Mainly Clear"@.len() != "Light Drizzle"@.len()); }
    assert("Mainly Clear"@ != "Heavy Drizzle"@) by { assert("Mainly Clear"@.len() != "Heavy Drizzle"@.len()); }
    assert("Mainly Clear"@ != "Drizzle"@) by { assert("Mainly Clear"@.len() != "Drizzle"@.len()); }
    assert("Mainly Clear"@ != "Clear"@) by { assert("Mainly Clear"@.len() != "Clear"@.len()); }
}

/// Condition table law: each text that the feed uses for the current
/// conditions maps to the condition listed beside it here.
pub proof fn lemma_condition_table()
    ensures
        spec_condition_mapper("Sunny"@) == Conditions::Clear,
        spec_condition_mapper("Mainly Sunny"@) == Conditions::MainlyClear,
        spec_condition_mapper("Partly Cloudy"@) == Conditions::PartlyCloudy,
        spec_condition_mapper("Mostly Cloudy"@) == Conditions::MostlyCloudy,
        spec_condition_mapper("Light Rain Shower"@) == Conditions::LightRain,
        spec_condition_mapper("Light Rain Shower and Flurries"@) == Conditions::LightRain,
        spec_condition_mapper("Light Flurries"@) == Conditions::Flurries,
        spec_condition_mapper("Cloudy"@) == Conditions::Cloudy,
        spec_condition_mapper("Precipitation"@) == Conditions::Rain,
        spec_condition_mapper("Squalls"@) == Conditions::HeavySnow,
        spec_condition_mapper("Light Precipitation"@) == Conditions::LightRain,
        spec_condition_mapper("Heavy Precipitation"@) == Conditions::HeavyRain,
        spec_condition_mapper("Rain Shower"@) == Conditions::Rain,
        spec_condition_mapper("Light Rain and Drizzle"@) == Conditions::LightRain,
        spec_condition_mapper("Light Rain"@) == Conditions::LightRain,
        spec_condition_mapper("Rain"@) == Conditions::Rain,
        spec_condition_mapper("Rain and Drizzle"@) == Conditions::Rain,
        spec_condition_mapper("Heavy Rain and Drizzle"@) == Conditions::HeavyRain,
        spec_condition_mapper("Heavy Rain Shower"@) == Conditions::HeavyRain,
        spec_condition_mapper("Heavy Rain"@) == Conditions::HeavyRain,
        spec_condition_mapper("Light Freezing Drizzle"@) == Conditions::LightFreezingRain,
        spec_condition_mapper("Light Freezing Rain"@) == Conditions::LightFreezingRain,
        spec_condition_mapper("Heavy Freezing Drizzle"@) == Conditions::HeavyFreezingRain,
        spec_condition_mapper("Heavy Freezing Rain"@) == Conditions::HeavyFreezingRain,
        spec_condition_mapper("Freezing Drizzle"@) == Conditions::LightFreezingRain,
        spec_condition_mapper("Freezing Rain"@) == Conditions::FreezingRain,
        spec_condition_mapper("Rain and Flurries"@) == Conditions::Rain,
        spec_condition_mapper("Rain and Snow"@) == Conditions::Snow,
        spec_condition_mapper("Heavy Rain Shower and Flurries"@) == Conditions::HeavyRain,
        spec_condition_mapper("Heavy Rain and Snow"@) == Conditions::HeavyRain,
        spec_condition_mapper("Light Snow"@) == Conditions::LightSnow,
        spec_condition_mapper("Snow"@) == Conditions::Snow,
        spec_condition_mapper("Flurries"@) == Conditions::Flurries,
        spec_condition_mapper("Heavy Flurries"@) == Conditions::Flurries,
        spec_condition_mapper("Heavy Snow"@) == Conditions::HeavySnow,
        spec_condition_mapper("Thunderstorm with Rain"@) == Conditions::Thunderstorm,
        spec_condition_mapper("Thunderstorm with Heavy Rain"@) == Conditions::Thunderstorm,
        spec_condition_mapper("Thunderstorm with Light Rain"@) == Conditions::Thunderstorm,
        spec_condition_mapper("Thunderstorm"@) == Conditions::Thunderstorm,
        spec_condition_mapper("Heavy Thunderstorm"@) == Conditions::Thunderstorm,
        spec_condition_mapper("Heavy Thunderstorm with Rain"@) == Conditions::Thunderstorm,
        spec_condition_mapper("Haze"@) == Conditions::Fog,
        spec_condition_mapper("Fog"@) == Conditions::Fog,
        spec_condition_mapper("Ice Fog"@) == Conditions::Fog,
        spec_condition_mapper("Fog Patches"@) == Conditions::Fog,
        spec_condition_mapper("Shallow Fog"@) == Conditions::Fog,
        spec_condition_mapper("Mist"@) == Conditions::Fog,
        spec_condition_mapper("Drifting Snow"@) == Conditions::LightSnow,
        spec_condition_mapper("Ice Crystals"@) == Conditions::LightSnow,
        spec_condition_mapper("Snow Pellets"@) == Conditions::LightFreezingRain,
        spec_condition_mapper("Ice Pellets"@) == Conditions::LightFreezingRain,
        spec_condition_mapper("Hail"@) == Conditions::Hail,
        spec_condition_mapper("Snow Grains"@) == Conditions::LightSnow,
        spec_condition_mapper("Light Drizzle"@) == Conditions::Drizzle,
        spec_condition_mapper("Heavy Drizzle"@) == Conditions::Drizzle,
        spec_condition_mapper("Drizzle"@) == Conditions::Drizzle,
        spec_condition_mapper("Clear"@) == Conditions::Clear,
        spec_condition_mapper("Mainly Clear"@) == Conditions::MainlyClear,
{
    lemma_condition_table_1();
    lemma_condition_table_2();
    lemma_condition_table_3();
    lemma_condition_table_4();
    lemma_condition_table_5();
    lemma_condition_table_6();
}

/// Whether `s` is one of the feed texts of the condition table.
pub open spec fn is_listed_condition(s: Seq<char>) -> bool {
    s == "Sunny"@ ||
        s == "Mainly Sunny"@ ||
        s == "Partly Cloudy"@ ||
        s == "Mostly Cloudy"@ ||
        s == "Light Rain Shower"@ ||
        s == "Light Rain Shower and Flurries"@ ||
        s == "Light Flurries"@ ||
        s == "Cloudy"@ ||
        s == "Precipitation"@ ||
        s == "Squalls"@ ||
        s == "Light Precipitation"@ ||
        s == "Heavy Precipitation"@ ||
        s == "Rain Shower"@ ||
        s == "Light Rain and Drizzle"@ ||
        s == "Light Rain"@ ||
        s == "Rain"@ ||
        s == "Rain and Drizzle"@ ||
        s == "Heavy Rain and Drizzle"@ ||
        s == "Heavy Rain Shower"@ ||
        s == "Heavy Rain"@ ||
        s == "Light Freezing Drizzle"@ ||
        s == "Light Freezing Rain"@ ||
        s == "Heavy Freezing Drizzle"@ ||
        s == "Heavy Freezing Rain"@ ||
        s == "Freezing Drizzle"@ ||
        s == "Freezing Rain"@ ||
        s == "Rain and Flurries"@ ||
        s == "Rain and Snow"@ ||
        s == "Heavy Rain Shower and Flurries"@ ||
        s == "Heavy Rain and Snow"@ ||
        s == "Light Snow"@ ||
        s == "Snow"@ ||
        s == "Flurries"@ ||
        s == "Heavy Flurries"@ ||
        s == "Heavy Snow"@ ||
        s == "Thunderstorm with Rain"@ ||
        s == "Thunderstorm with Heavy Rain"@ ||
        s == "Thunderstorm with Light Rain"@ ||
        s == "Thunderstorm"@ ||
        s == "Heavy Thunderstorm"@ ||
        s == "Heavy Thunderstorm with Rain"@ ||
        s == "Haze"@ ||
        s == "Fog"@ ||
        s == "Ice Fog"@ ||
        s == "Fog Patches"@ ||
        s == "Shallow Fog"@ ||
        s == "Mist"@ ||
        s == "Drifting Snow"@ ||
        s == "Ice Crystals"@ ||
        s == "Snow Pellets"@ ||
        s == "Ice Pellets"@ ||
        s == "Hail"@ ||
        s == "Snow Grains"@ ||
        s == "Light Drizzle"@ ||
        s == "Heavy Drizzle"@ ||
        s == "Drizzle"@ ||
        s == "Clear"@ ||
        s == "Mainly Clear"@
}

/// Unlisted text law: any text that is not in the condition table maps to
/// `Unknown`.
pub proof fn lemma_unlisted_condition(s: Seq<char>)
    requires
        !is_listed_condition(s),
    ensures
        spec_condition_mapper(s) == Conditions::Unknown,
{
}

} // verus!
