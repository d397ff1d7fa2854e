use sshn::error::Error;
use sshn::publication::{
    convert_publications, reply_outcome, row_labels, ApplicantSpecific, ApplyResult, ApplyState,
    City, ComplexType, GrossRent, HousingPublications, Location, PublicationEdge, PublicationNode,
    PublicationNodes, PublicationsData, Unit,
};

fn node(id: &str, applicants: i64, rent: f64) -> PublicationNode<f64> {
    PublicationNode {
        id: String::from(id),
        total_number_of_applications: applicants,
        unit: Some(Unit {
            complex_type: Some(ComplexType {
                name: Some(String::from("Studio")),
            }),
            location: Some(Location {
                city: Some(City {
                    name: Some(String::from("Nijmegen")),
                }),
            }),
            gross_rent: Some(GrossRent { exact: rent }),
        }),
        applicant_specific: Some(ApplicantSpecific {
            is100_percent_match: true,
            number_of_applicants_with_higher_priority: Some(3),
        }),
    }
}

fn edge(node: PublicationNode<f64>) -> Option<PublicationEdge<f64>> {
    Some(PublicationEdge { node: Some(node) })
}

fn data(edges: Vec<Option<PublicationEdge<f64>>>) -> PublicationsData<f64> {
    PublicationsData {
        housing_publications: Some(HousingPublications {
            nodes: Some(PublicationNodes { edges: Some(edges) }),
        }),
    }
}

#[test]
fn whole_publication_is_read() {
    let list = convert_publications(&data(vec![edge(node("p1", 12, 512.5))])).unwrap();
    assert_eq!(list.len(), 1);
    assert_eq!(list[0].id(), "p1");
    assert_eq!(list[0].name(), "Studio");
    assert_eq!(list[0].city(), "Nijmegen");
    assert_eq!(list[0].nr_of_applicants(), 12);
    assert_eq!(list[0].nr_of_people_with_higher_priority(), 3);
    assert!(list[0].is_match());
    assert_eq!(list[0].rent(), 512.5);
}

#[test]
fn answer_without_a_list_is_refused() {
    let nothing: PublicationsData<f64> = PublicationsData {
        housing_publications: None,
    };
    assert!(matches!(
        convert_publications(&nothing),
        Err(Error::MissingPublications)
    ));
    let no_nodes: PublicationsData<f64> = PublicationsData {
        housing_publications: Some(HousingPublications { nodes: None }),
    };
    assert!(matches!(
        convert_publications(&no_nodes),
        Err(Error::MissingPublications)
    ));
    let no_edges: PublicationsData<f64> = PublicationsData {
        housing_publications: Some(HousingPublications {
            nodes: Some(PublicationNodes { edges: None }),
        }),
    };
    assert!(matches!(
        convert_publications(&no_edges),
        Err(Error::MissingPublications)
    ));
}

#[test]
fn empty_list_is_an_empty_result() {
    let list = convert_publications(&data(vec![])).unwrap();
    assert!(list.is_empty());
}

#[test]
fn incomplete_edges_are_passed_over() {
    let mut no_unit = node("no-unit", 1, 1.0);
    no_unit.unit = None;
    let mut no_standing = node("no-standing", 1, 1.0);
    no_standing.applicant_specific = None;
    let mut no_type = node("no-type", 1, 1.0);
    no_type.unit.as_mut().unwrap().complex_type = None;
    let mut no_type_name = node("no-type-name", 1, 1.0);
    no_type_name.unit.as_mut().unwrap().complex_type = Some(ComplexType { name: None });
    let mut no_location = node("no-location", 1, 1.0);
    no_location.unit.as_mut().unwrap().location = None;
    let mut no_city = node("no-city", 1, 1.0);
    no_city.unit.as_mut().unwrap().location = Some(Location { city: None });
    let mut no_city_name = node("no-city-name", 1, 1.0);
    no_city_name.unit.as_mut().unwrap().location = Some(Location {
        city: Some(City { name: None }),
    });
    let mut no_rent = node("no-rent", 1, 1.0);
    no_rent.unit.as_mut().unwrap().gross_rent = None;
    let edges = vec![
        edge(node("first", 1, 100.0)),
        None,
        Some(PublicationEdge { node: None }),
        edge(no_unit),
        edge(no_standing),
        edge(no_type),
        edge(no_type_name),
        edge(node("second", 2, 200.0)),
        edge(no_location),
        edge(no_city),
        edge(no_city_name),
        edge(no_rent),
        edge(node("third", 3, 300.0)),
    ];
    let list = convert_publications(&data(edges)).unwrap();
    let ids: Vec<&str> = list.iter().map(|publication| publication.id()).collect();
    assert_eq!(ids, vec!["first", "second", "third"]);
    let rents: Vec<f64> = list.iter().map(|publication| publication.rent()).collect();
    assert_eq!(rents, vec![100.0, 200.0, 300.0]);
}

#[test]
fn missing_priority_count_is_zero() {
    let mut unknown = node("p", 7, 1.0);
    unknown.applicant_specific = Some(ApplicantSpecific {
        is100_percent_match: false,
        number_of_applicants_with_higher_priority: None,
    });
    let list = convert_publications(&data(vec![edge(unknown)])).unwrap();
    assert_eq!(list[0].nr_of_people_with_higher_priority(), 0);
    assert!(!list[0].is_match());
    assert_eq!(list[0].nr_of_applicants(), 7);
}

#[test]
fn accepted_application_is_a_success() {
    assert!(reply_outcome(None).is_ok());
    let accepted = ApplyResult {
        state: ApplyState::Accepted,
        description: Some(String::from("fine")),
    };
    assert!(reply_outcome(Some(accepted)).is_ok());
    let silent = ApplyResult {
        state: ApplyState::Accepted,
        description: None,
    };
    assert!(reply_outcome(Some(silent)).is_ok());
}

#[test]
fn refused_application_carries_the_description() {
    let refused = ApplyResult {
        state: ApplyState::Refused,
        description: Some(String::from("already applied")),
    };
    match reply_outcome(Some(refused)) {
        Err(Error::Api(text)) => assert_eq!(text, "already applied"),
        other => panic!("unexpected outcome {:?}", other),
    }
    let bare = ApplyResult {
        state: ApplyState::Refused,
        description: None,
    };
    match reply_outcome(Some(bare)) {
        Err(Error::Api(text)) => assert_eq!(text, ""),
        other => panic!("unexpected outcome {:?}", other),
    }
}

#[test]
fn table_headings() {
    assert_eq!(
        row_labels(),
        vec![
            "Can reply?",
            "Name",
            "City",
            "Number of applicants",
            "Gross rent",
            "ID"
        ]
    );
}

#[test]
fn table_row_of_a_publication() {
    let mut other = node("p2", -4, 0.0);
    other.applicant_specific = Some(ApplicantSpecific {
        is100_percent_match: false,
        number_of_applicants_with_higher_priority: None,
    });
    let list = convert_publications(&data(vec![edge(node("p1", 12, 512.5)), edge(other)])).unwrap();
    let rent = list[0].rent().to_string();
    assert_eq!(
        list[0].as_row(rent),
        vec!["Yes", "Studio", "Nijmegen", "12", "512.5", "p1"]
    );
    assert_eq!(
        list[1].as_row(String::from("free")),
        vec!["No", "Studio", "Nijmegen", "-4", "free", "p2"]
    );
}
