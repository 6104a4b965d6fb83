//! A place for which the weather is asked.

use vstd::prelude::*;

verus! {

/// A place as a geocoding search reports it.
///
/// The coordinates and the elevation are kept as the decimal text that goes
/// into a request; nothing in this library computes with them.
#[derive(Debug, PartialEq)]
pub struct Location {
    pub id: u32,
    pub name: String,
    pub latitude: String,
    pub longitude: String,
    pub elevation: String,
    pub feature_code: String,
    pub country_code: String,
    pub admin1_id: Option<u32>,
    pub admin2_id: Option<u32>,
    pub admin3_id: Option<u32>,
    pub admin4_id: Option<u32>,
    pub timezone: String,
    pub population: Option<u32>,
    pub postcodes: Option<Vec<String>>,
    pub country_id: u32,
    pub country: String,
    pub admin1: Option<String>,
    pub admin2: Option<String>,
    pub admin3: Option<String>,
    pub admin4: Option<String>,
}

/// What a `Location` holds, with every text as a sequence of characters.
pub struct LocationView {
    pub id: u32,
    pub name: Seq<char>,
    pub latitude: Seq<char>,
    pub longitude: Seq<char>,
    pub elevation: Seq<char>,
    pub feature_code: Seq<char>,
    pub country_code: Seq<char>,
    pub admin1_id: Option<u32>,
    pub admin2_id: Option<u32>,
    pub admin3_id: Option<u32>,
    pub admin4_id: Option<u32>,
    pub timezone: Seq<char>,
    pub population: Option<u32>,
    pub postcodes: Option<Seq<Seq<char>>>,
    pub country_id: u32,
    pub country: Seq<char>,
    pub admin1: Option<Seq<char>>,
    pub admin2: Option<Seq<char>>,
    pub admin3: Option<Seq<char>>,
    pub admin4: Option<Seq<char>>,
}

/// The characters of an optional text.
pub open spec fn text_view(text: Option<String>) -> Option<Seq<char>> {
    match text {
        Some(t) => Some(t@),
        None => None,
    }
}

/// The characters of each text of a list.
pub open spec fn texts_view(texts: Seq<String>) -> Seq<Seq<char>> {
    texts.map_values(|t: String| t@)
}

impl View for Location {
    type V = LocationView;

    open spec fn view(&self) -> LocationView {
        LocationView {
            id: self.id,
            name: self.name@,
            latitude: self.latitude@,
            longitude: self.longitude@,
            elevation: self.elevation@,
            feature_code: self.feature_code@,
            country_code: self.country_code@,
            admin1_id: self.admin1_id,
            admin2_id: self.admin2_id,
            admin3_id: self.admin3_id,
            admin4_id: self.admin4_id,
            timezone: self.timezone@,
            population: self.population,
            postcodes: match self.postcodes {
                Some(codes) => Some(texts_view(codes@)),
                None => None,
            },
            country_id: self.country_id,
            country: self.country@,
            admin1: text_view(self.admin1),
            admin2: text_view(self.admin2),
            admin3: text_view(self.admin3),
            admin4: text_view(self.admin4),
        }
    }
}

impl LocationView {
    /// The location that stands for "none chosen yet": number 0, empty texts,
    /// coordinates and elevation zero, nothing optional present.
    pub open spec fn zero() -> LocationView {
        LocationView {
            id: 0,
            name: Seq::empty(),
            latitude: "0"@,
            longitude: "0"@,
            elevation: "0"@,
            feature_code: Seq::empty(),
            country_code: Seq::empty(),
            admin1_id: None,
            admin2_id: None,
            admin3_id: None,
            admin4_id: None,
            timezone: Seq::empty(),
            population: None,
            postcodes: None,
            country_id: 0,
            country: Seq::empty(),
            admin1: None,
            admin2: None,
            admin3: None,
            admin4: None,
        }
    }

    /// Whether no place has been chosen: a place that a search reports never
    /// has the number 0.
    pub open spec fn is_unset(self) -> bool {
        self.id == 0
    }

    /// The name, followed by each administrative area that is present, from
    /// the largest down, each behind a comma and a space.
    pub open spec fn human_readable(self) -> Seq<char> {
        self.name + area_suffix(self.admin1) + area_suffix(self.admin2) + area_suffix(self.admin3)
            + area_suffix(self.admin4)
    }
}

/// What one administrative area adds to a place's readable name.
pub open spec fn area_suffix(area: Option<Seq<char>>) -> Seq<char> {
    match area {
        Some(a) => ", "@ + a,
        None => Seq::empty(),
    }
}

/// Appends to `text` what the area adds to a readable name.
fn push_area(text: &mut String, area: &Option<String>)
    ensures
        final(text)@ == old(text)@ + area_suffix(text_view(*area)),
{
    match area {
        Some(a) => {
            text.append(", ");
            text.append(a.as_str());
            assert(text@ =~= old(text)@ + (", "@ + a@));
        },
        None => {
            assert(text@ =~= old(text)@ + Seq::<char>::empty());
        },
    }
}

/// A copy of a list of texts.
fn clone_texts(texts: &Vec<String>) -> (copy: Vec<String>)
    ensures
        texts_view(copy@) == texts_view(texts@),
{
    let mut copy: Vec<String> = Vec::new();
    let mut i: usize = 0;
    while i < texts.len()
        invariant
            i <= texts.len(),
            copy@.len() == i,
            forall|j: int| 0 <= j < i ==> copy@[j]@ == texts@[j]@,
        decreases texts.len() - i,
    {
        copy.push(texts[i].clone());
        i += 1;
    }
    assert(texts_view(copy@) =~= texts_view(texts@));
    copy
}

impl Clone for Location {
    fn clone(&self) -> (copy: Self)
        ensures
            copy@ == self@,
    {
        Location {
            id: self.id,
            name: self.name.clone(),
            latitude: self.latitude.clone(),
            longitude: self.longitude.clone(),
            elevation: self.elevation.clone(),
            feature_code: self.feature_code.clone(),
            country_code: self.country_code.clone(),
            admin1_id: self.admin1_id,
            admin2_id: self.admin2_id,
            admin3_id: self.admin3_id,
            admin4_id: self.admin4_id,
            timezone: self.timezone.clone(),
            population: self.population,
            postcodes: match &self.postcodes {
                Some(codes) => Some(clone_texts(codes)),
                None => None,
            },
            country_id: self.country_id,
            country: self.country.clone(),
            admin1: self.admin1.clone(),
            admin2: self.admin2.clone(),
            admin3: self.admin3.clone(),
            admin4: self.admin4.clone(),
        }
    }
}

impl Default for Location {
    fn default() -> (location: Self)
        ensures
            location@ == LocationView::zero(),
    {
        Location {
            id: 0,
            name: String::new(),
            latitude: String::from_str("0"),
            longitude: String::from_str("0"),
            elevation: String::from_str("0"),
            feature_code: String::new(),
            country_code: String::new(),
            admin1_id: None,
            admin2_id: None,
            admin3_id: None,
            admin4_id: None,
            timezone: String::new(),
            population: None,
            postcodes: None,
            country_id: 0,
            country: String::new(),
            admin1: None,
            admin2: None,
            admin3: None,
            admin4: None,
        }
    }
}

impl Location {
    /// Whether no place has been chosen yet.
    pub fn is_unset(&self) -> (unset: bool)
        ensures
            unset == self@.is_unset(),
    {
        self.id == 0
    }

    pub fn to_human_readable(&self) -> (text: String)
        ensures
            text@ == self@.human_readable(),
    {
        let mut text = self.name.clone();
        push_area(&mut text, &self.admin1);
        push_area(&mut text, &self.admin2);
        push_area(&mut text, &self.admin3);
        push_area(&mut text, &self.admin4);
        text
    }
}

} // verus!
