use crate::error::Error;
use crate::text::{signed_decimal, signed_decimal_text};
use vstd::prelude::*;
use vstd::string::StringExecFns;

verus! {

/// What a [`Publication`] stands for.
pub struct PublicationView<R> {
    pub id: Seq<char>,
    pub name: Seq<char>,
    pub city: Seq<char>,
    pub nr_of_applicants: int,
    pub nr_of_people_with_higher_priority: int,
    pub is_match: bool,
    pub rent: R,
}

/// A housing unit that is open for applications. The rent is carried as
/// the caller gave it; nothing here computes with it.
#[derive(Debug)]
pub struct Publication<R> {
    id: String,
    name: String,
    city: String,
    nr_of_applicants: i64,
    nr_of_people_with_higher_priority: i64,
    is_match: bool,
    rent: R,
}

impl<R> View for Publication<R> {
    type V = PublicationView<R>;

    closed spec fn view(&self) -> PublicationView<R> {
        PublicationView {
            id: self.id@,
            name: self.name@,
            city: self.city@,
            nr_of_applicants: self.nr_of_applicants as int,
            nr_of_people_with_higher_priority: self.nr_of_people_with_higher_priority as int,
            is_match: self.is_match,
            rent: self.rent,
        }
    }
}

impl<R: Copy> Publication<R> {
    pub fn id(&self) -> (id: &str)
        ensures
            id@ == self@.id,
    {
        self.id.as_str()
    }

    pub fn name(&self) -> (name: &str)
        ensures
            name@ == self@.name,
    {
        self.name.as_str()
    }

    pub fn city(&self) -> (city: &str)
        ensures
            city@ == self@.city,
    {
        self.city.as_str()
    }

    pub fn nr_of_applicants(&self) -> (count: i64)
        ensures
            count == self@.nr_of_applicants,
    {
        self.nr_of_applicants
    }

    pub fn nr_of_people_with_higher_priority(&self) -> (count: i64)
        ensures
            count == self@.nr_of_people_with_higher_priority,
    {
        self.nr_of_people_with_higher_priority
    }

    pub fn is_match(&self) -> (is_match: bool)
        ensures
            is_match == self@.is_match,
    {
        self.is_match
    }

    pub fn rent(&self) -> (rent: R)
        ensures
            rent == self@.rent,
    {
        self.rent
    }
}

/// The rent of a unit.
#[derive(Debug)]
pub struct GrossRent<R> {
    pub exact: R,
}

/// The kind of building that a unit belongs to.
#[derive(Debug)]
pub struct ComplexType {
    pub name: Option<String>,
}

#[derive(Debug)]
pub struct City {
    pub name: Option<String>,
}

#[derive(Debug)]
pub struct Location {
    pub city: Option<City>,
}

/// A unit as the API describes it; every part may be missing.
#[derive(Debug)]
pub struct Unit<R> {
    pub complex_type: Option<ComplexType>,
    pub location: Option<Location>,
    pub gross_rent: Option<GrossRent<R>>,
}

/// What the API knows of the applicant's standing for a unit.
#[derive(Debug)]
pub struct ApplicantSpecific {
    pub is100_percent_match: bool,
    pub number_of_applicants_with_higher_priority: Option<i64>,
}

/// A publication as the API describes it.
#[derive(Debug)]
pub struct PublicationNode<R> {
    pub id: String,
    pub total_number_of_applications: i64,
    pub unit: Option<Unit<R>>,
    pub applicant_specific: Option<ApplicantSpecific>,
}

#[derive(Debug)]
pub struct PublicationEdge<R> {
    pub node: Option<PublicationNode<R>>,
}

#[derive(Debug)]
pub struct PublicationNodes<R> {
    pub edges: Option<Vec<Option<PublicationEdge<R>>>>,
}

#[derive(Debug)]
pub struct HousingPublications<R> {
    pub nodes: Option<PublicationNodes<R>>,
}

/// The API's answer to a request for the list of publications.
#[derive(Debug)]
pub struct PublicationsData<R> {
    pub housing_publications: Option<HousingPublications<R>>,
}

/// The name of a unit's kind of building, where the API gave one.
pub open spec fn unit_name<R>(unit: Unit<R>) -> Option<Seq<char>> {
    match unit.complex_type {
        Some(ComplexType { name: Some(name) }) => Some(name@),
        _ => None,
    }
}

/// The name of a unit's city, where the API gave one.
pub open spec fn unit_city<R>(unit: Unit<R>) -> Option<Seq<char>> {
    match unit.location {
        Some(Location { city: Some(City { name: Some(name) }) }) => Some(name@),
        _ => None,
    }
}

/// The publication that an edge of the answer describes, or `None` where
/// the edge is empty or lacks the unit, its name, its city, its rent or the
/// applicant's standing. A missing count of applicants with higher
/// priority counts as none.
pub open spec fn publication_of<R>(edge: Option<PublicationEdge<R>>) -> Option<PublicationView<R>> {
    match edge {
        Some(PublicationEdge { node: Some(node) }) => match (node.unit, node.applicant_specific) {
            (Some(unit), Some(standing)) => match (
                unit_name(unit),
                unit_city(unit),
                unit.gross_rent,
            ) {
                (Some(name), Some(city), Some(rent)) => Some(
                    PublicationView {
                        id: node.id@,
                        name,
                        city,
                        nr_of_applicants: node.total_number_of_applications as int,
                        nr_of_people_with_higher_priority: match standing.number_of_applicants_with_higher_priority {
                            Some(count) => count as int,
                            None => 0,
                        },
                        is_match: standing.is100_percent_match,
                        rent: rent.exact,
                    },
                ),
                _ => None,
            },
            _ => None,
        },
        _ => None,
    }
}

/// The publications that a list of edges describes, in the order of the
/// edges.
pub open spec fn publications_of<R>(edges: Seq<Option<PublicationEdge<R>>>) -> Seq<
    PublicationView<R>,
>
    decreases edges.len(),
{
    if edges.len() == 0 {
        Seq::empty()
    } else {
        let before = publications_of(edges.drop_last());
        match publication_of(edges.last()) {
            Some(publication) => before.push(publication),
            None => before,
        }
    }
}

/// The list of edges in an answer, where the answer has one.
pub open spec fn edges_of<R>(data: PublicationsData<R>) -> Option<Seq<Option<PublicationEdge<R>>>> {
    match data.housing_publications {
        Some(HousingPublications { nodes: Some(PublicationNodes { edges: Some(edges) }) }) => Some(
            edges@,
        ),
        _ => None,
    }
}

/// The views of a list of publications.
pub open spec fn publication_views<R>(publications: Seq<Publication<R>>) -> Seq<PublicationView<R>> {
    Seq::new(publications.len(), |i: int| publications[i]@)
}

fn convert_edge<R: Copy>(edge: &Option<PublicationEdge<R>>) -> (publication: Option<Publication<R>>)
    ensures
        publication is Some <==> publication_of(*edge) is Some,
        publication is Some ==> publication.unwrap()@ == publication_of(*edge).unwrap(),
{
    let node = match edge {
        Some(PublicationEdge { node: Some(node) }) => node,
        _ => { return None; },
    };
    let unit = match &node.unit {
        Some(unit) => unit,
        None => { return None; },
    };
    let name = match &unit.complex_type {
        Some(ComplexType { name: Some(name) }) => name.clone(),
        _ => { return None; },
    };
    let city = match &unit.location {
        Some(Location { city: Some(City { name: Some(name) }) }) => name.clone(),
        _ => { return None; },
    };
    let rent = match &unit.gross_rent {
        Some(rent) => rent.exact,
        None => { return None; },
    };
    let standing = match &node.applicant_specific {
        Some(standing) => standing,
        None => { return None; },
    };
    let higher = match standing.number_of_applicants_with_higher_priority {
        Some(count) => count,
        None => 0,
    };
    Some(
        Publication {
            id: node.id.clone(),
            name,
            city,
            nr_of_applicants: node.total_number_of_applications,
            nr_of_people_with_higher_priority: higher,
            is_match: standing.is100_percent_match,
            rent,
        },
    )
}

/// Reads the publications out of the API's answer. An answer without a
/// list of edges is refused; an edge that does not describe a whole
/// publication is passed over.
pub fn convert_publications<R: Copy>(data: &PublicationsData<R>) -> (publications: Result<
    Vec<Publication<R>>,
    Error,
>)
    ensures
        match edges_of(*data) {
            Some(edges) => publications matches Ok(list) && publication_views(list@)
                == publications_of(edges),
            None => publications matches Err(Error::MissingPublications),
        },
{
    let edges = match &data.housing_publications {
        Some(HousingPublications { nodes: Some(PublicationNodes { edges: Some(edges) }) }) => edges,
        _ => { return Err(Error::MissingPublications); },
    };
    let mut list: Vec<Publication<R>> = Vec::new();
    let mut index: usize = 0;
    assert(publication_views(list@) =~= publications_of(edges@.take(0)));
    while index < edges.len()
        invariant
            index <= edges.len(),
            publication_views(list@) == publications_of(edges@.take(index as int)),
        decreases edges.len() - index,
    {
        let ghost before = list@;
        assert(edges@.take(index + 1).drop_last() =~= edges@.take(index as int));
        assert(edges@.take(index + 1).last() == edges@[index as int]);
        match convert_edge(&edges[index]) {
            Some(publication) => {
                list.push(publication);
                assert(publication_views(list@) =~= publication_views(before).push(publication@));
            },
            None => {},
        }
        index += 1;
    }
    assert(edges@.take(index as int) =~= edges@);
    Ok(list)
}

/// How the API judged an application.
#[derive(Debug, Clone, Copy, PartialEq, Eq, Structural)]
pub enum ApplyState {
    /// The application was accepted.
    Accepted,
    /// Anything else.
    Refused,
}

/// The API's answer to an application for a unit.
#[derive(Debug)]
pub struct ApplyResult {
    pub state: ApplyState,
    pub description: Option<String>,
}

/// Judges the API's answer to an application: no answer and an accepted
/// application are a success; a refusal is an error that carries the API's
/// description, or an empty text where it gave none.
pub fn reply_outcome(applied: Option<ApplyResult>) -> (outcome: Result<(), Error>)
    ensures
        match applied {
            None => outcome is Ok,
            Some(ApplyResult { state: ApplyState::Accepted, .. }) => outcome is Ok,
            Some(ApplyResult { state: ApplyState::Refused, description: Some(text) }) => outcome
                == Err::<(), Error>(Error::Api(text)),
            Some(
                ApplyResult { state: ApplyState::Refused, description: None },
            ) => outcome matches Err(Error::Api(text)) && text@ == Seq::<char>::empty(),
        },
{
    match applied {
        None => Ok(()),
        Some(ApplyResult { state, description }) => match state {
            ApplyState::Accepted => Ok(()),
            ApplyState::Refused => match description {
                Some(text) => Err(Error::Api(text)),
                None => Err(Error::Api(String::new())),
            },
        },
    }
}

/// The headings of the table of publications.
pub open spec fn table_labels() -> Seq<Seq<char>> {
    seq![
        "Can reply?"@,
        "Name"@,
        "City"@,
        "Number of applicants"@,
        "Gross rent"@,
        "ID"@,
    ]
}

/// The texts of a row.
pub open spec fn row_view(row: Seq<String>) -> Seq<Seq<char>> {
    Seq::new(row.len(), |i: int| row[i]@)
}

/// The cells of a publication's row, given the text of its rent.
pub open spec fn table_cells<R>(publication: PublicationView<R>, rent: Seq<char>) -> Seq<Seq<char>> {
    seq![
        if publication.is_match {
            "Yes"@
        } else {
            "No"@
        },
        publication.name,
        publication.city,
        signed_decimal_text(publication.nr_of_applicants),
        rent,
        publication.id,
    ]
}

/// Lists the headings of the table of publications.
pub fn row_labels() -> (labels: Vec<String>)
    ensures
        row_view(labels@) == table_labels(),
{
    let mut labels: Vec<String> = Vec::new();
    labels.push(String::from_str("Can reply?"));
    labels.push(String::from_str("Name"));
    labels.push(String::from_str("City"));
    labels.push(String::from_str("Number of applicants"));
    labels.push(String::from_str("Gross rent"));
    labels.push(String::from_str("ID"));
    assert(row_view(labels@) =~= table_labels());
    labels
}

impl<R: Copy> Publication<R> {
    /// Lists the cells of this publication's row; `rent` is the rent as
    /// the caller wants it shown.
    pub fn as_row(&self, rent: String) -> (row: Vec<String>)
        ensures
            row_view(row@) == table_cells(self@, rent@),
    {
        let mut row: Vec<String> = Vec::new();
        if self.is_match {
            row.push(String::from_str("Yes"));
        } else {
            row.push(String::from_str("No"));
        }
        row.push(self.name.clone());
        row.push(self.city.clone());
        row.push(signed_decimal(self.nr_of_applicants));
        row.push(rent);
        row.push(self.id.clone());
        assert(row_view(row@) =~= table_cells(self@, rent@));
        row
    }
}

} // verus!
