//! Strategic initiatives and the mock analytics connector that answers
//! operational questions about them.
use vstd::prelude::*;

use crate::stamp::fresh_id;

verus! {

/// Why a connector could not answer.
pub enum ConnectorError {
    Message(String),
}

/// A strategic initiative: who owns it and which data models it draws on.
/// (Its metrics, which are measured in floating point, are kept beside it.)
pub struct Initiative {
    /// The 128-bit value of the initiative's UUID.
    pub id: u128,
    pub name: String,
    pub description: String,
    pub owner: String,
    pub status: String,
    pub linked_data_models: Vec<String>,
}

impl Initiative {
    /// An active initiative with a fresh identifier, no owner and no linked
    /// data models.
    pub fn new(name: String, description: String) -> (i: Self)
        ensures
            i.name == name,
            i.description == description,
            i.owner@ == Seq::<char>::empty(),
            i.status@ == "active"@,
            i.linked_data_models@.len() == 0,
    {
        Initiative {
            id: fresh_id(),
            name,
            description,
            owner: String::new(),
            status: String::from_str("active"),
            linked_data_models: Vec::new(),
        }
    }
}

/// `ids[k]` is the first occurrence of `id`.
pub open spec fn is_first_id(ids: Seq<u128>, id: u128, k: int) -> bool {
    &&& 0 <= k < ids.len()
    &&& ids[k] == id
    &&& forall|j: int| 0 <= j < k ==> ids[j] != id
}

/// The initiative a query is about: the one with the requested identifier
/// when there is one, otherwise the first, if any.
pub open spec fn selected(ids: Seq<u128>, requested: Option<u128>) -> Option<int> {
    if requested is Some && exists|k: int| is_first_id(ids, requested->0, k) {
        Some(choose|k: int| is_first_id(ids, requested->0, k))
    } else if ids.len() > 0 {
        Some(0)
    } else {
        None
    }
}

/// The answer to an operational question about an initiative (or about
/// none, which reads `unlinked`).
pub open spec fn insight_answer(question: Seq<char>, initiative: Option<Seq<char>>) -> Seq<char> {
    let name = match initiative {
        Some(n) => n,
        None => "unlinked"@,
    };
    "Operational intelligence answer for '"@ + question
        + "': NA pipeline is $4.2M in Proposal stage. Initiative '"@ + name
        + "' projects 14.2% ROI with 8-month payback."@
}

/// A connector to a Qlik-style associative data model, answering from
/// fixed sample data.
pub struct MockAnalyticsConnector;

impl MockAnalyticsConnector {
    /// The connector's name.
    pub fn name(&self) -> (s: &'static str)
        ensures
            s@ == "mock-qlik-analytics"@,
    {
        "mock-qlik-analytics"
    }

    /// The initiative the sample data model tracks: revenue acceleration,
    /// owned by the CFO, linked to the pipeline and forecast models.
    pub fn sample_initiative(&self) -> (i: Initiative)
        ensures
            i.name@ == "Revenue Acceleration Q3"@,
            i.description@ == "Map pipeline velocity to strategic revenue targets"@,
            i.owner@ == "CFO"@,
            i.status@ == "active"@,
            i.linked_data_models@.map_values(|s: String| s@) == seq![
                "sales_pipeline"@,
                "forecast_model"@,
            ],
    {
        let mut i = Initiative::new(
            String::from_str("Revenue Acceleration Q3"),
            String::from_str("Map pipeline velocity to strategic revenue targets"),
        );
        i.owner = String::from_str("CFO");
        let mut models: Vec<String> = Vec::new();
        models.push(String::from_str("sales_pipeline"));
        models.push(String::from_str("forecast_model"));
        assert(models@.map_values(|s: String| s@) =~= seq!["sales_pipeline"@, "forecast_model"@]);
        i.linked_data_models = models;
        i
    }

    /// The position of the initiative a query is about.
    pub fn select(&self, initiatives: &Vec<Initiative>, requested: Option<u128>) -> (res: Option<
        usize,
    >)
        ensures
            match selected(initiatives@.map_values(|i: Initiative| i.id), requested) {
                Some(k) => res == Some(k as usize),
                None => res is None,
            },
    {
        let ghost ids = initiatives@.map_values(|i: Initiative| i.id);
        if let Some(id) = requested {
            let mut k: usize = 0;
            while k < initiatives.len()
                invariant
                    k <= initiatives@.len(),
                    ids == initiatives@.map_values(|i: Initiative| i.id),
                    requested == Some(id),
                    forall|j: int| 0 <= j < k ==> ids[j] != id,
                decreases initiatives@.len() - k,
            {
                if initiatives[k].id == id {
                    proof {
                        assert(is_first_id(ids, id, k as int));
                        let x = choose|x: int| is_first_id(ids, id, x);
                        assert(is_first_id(ids, id, x));
                        if x < k {
                            assert(ids[x] != id);
                        } else if k < x {
                            assert(ids[k as int] != id);
                        }
                    }
                    return Some(k);
                }
                k += 1;
            }
            assert forall|x: int| !is_first_id(ids, id, x) by {
                if 0 <= x < ids.len() {
                    assert(ids[x] != id);
                }
            }
        }
        if initiatives.len() > 0 {
            Some(0)
        } else {
            None
        }
    }

    /// The answer to an operational question about the named initiative.
    pub fn answer(&self, question: &str, initiative: Option<&str>) -> (res: String)
        ensures
            res@ == insight_answer(
                question@,
                match initiative {
                    Some(n) => Some(n@),
                    None => None,
                },
            ),
    {
        let name = match initiative {
            Some(n) => n,
            None => "unlinked",
        };
        let mut res = String::from_str("Operational intelligence answer for '");
        res.append(question);
        res.append("': NA pipeline is $4.2M in Proposal stage. Initiative '");
        res.append(name);
        res.append("' projects 14.2% ROI with 8-month payback.");
        res
    }
}

} // verus!
