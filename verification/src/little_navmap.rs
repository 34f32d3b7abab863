//! Records from the navigation database, and their rendering.
//!
//! The database itself is read by the surrounding application; this
//! module holds the record types the library reasons about and the
//! formatting of departure and arrival procedures for prompt building.

use vstd::prelude::*;
use vstd::string::StringSliceAdditionalSpecFns;
use vstd::string::StringExecFns;
use crate::text::str_eq;

verus! {

/// Which flavor of navigation database was found, in preference order.
#[derive(Debug, Clone)]
pub enum DatabaseType {
    Navigraph,
    XPlane,
    MSFS,
}

/// One departure or arrival procedure.
#[derive(Debug, Clone)]
pub struct ProcedureData {
    pub name: String,
    pub runway: String,
    pub procedure_type: String,
}

/// The mathematical image of a procedure record.
pub struct ProcedureDataView {
    pub name: Seq<char>,
    pub runway: Seq<char>,
    pub procedure_type: Seq<char>,
}

impl View for ProcedureData {
    type V = ProcedureDataView;

    open spec fn view(&self) -> ProcedureDataView {
        ProcedureDataView {
            name: self.name@,
            runway: self.runway@,
            procedure_type: self.procedure_type@,
        }
    }
}

/// The views of a sequence of procedure records.
pub open spec fn spec_procedure_views(s: Seq<ProcedureData>) -> Seq<ProcedureDataView> {
    Seq::new(s.len(), |i: int| s[i]@)
}

/// One procedure entry: the name, with the runway in parentheses when
/// one is named.
pub open spec fn spec_procedure_entry(p: ProcedureDataView) -> Seq<char> {
    if p.runway.len() == 0 {
        p.name
    } else {
        p.name + " (RWY "@ + p.runway + ")"@
    }
}

/// All entries, comma-separated, in order.
pub open spec fn spec_joined_procedures(ps: Seq<ProcedureDataView>) -> Seq<char>
    decreases ps.len(),
{
    if ps.len() == 0 {
        Seq::<char>::empty()
    } else if ps.len() == 1 {
        spec_procedure_entry(ps[0])
    } else {
        spec_joined_procedures(ps.drop_last()) + ", "@ + spec_procedure_entry(ps.last())
    }
}

/// The rendering of a procedure list: a placeholder in the requested
/// language when the list is empty, else the comma-separated entries.
pub open spec fn spec_format_procedures(ps: Seq<ProcedureDataView>, zh: bool) -> Seq<char> {
    if ps.len() == 0 {
        if zh {
            "（暂无数据）"@
        } else {
            "(No data)"@
        }
    } else {
        spec_joined_procedures(ps)
    }
}

/// Render a procedure list for prompt building.
pub fn format_procedures(procedures: &Vec<ProcedureData>, language: &str) -> (r: String)
    ensures
        r@ == spec_format_procedures(
            spec_procedure_views(procedures@),
            language.spec_bytes() =~= "zh".spec_bytes(),
        ),
{
    let zh = str_eq(language, "zh");
    if procedures.len() == 0 {
        return if zh {
            "（暂无数据）".to_owned()
        } else {
            "(No data)".to_owned()
        };
    }

    let ghost views = spec_procedure_views(procedures@);
    let mut out = String::new();
    let mut i: usize = 0;
    while i < procedures.len()
        invariant
            views == spec_procedure_views(procedures@),
            0 <= i <= procedures@.len(),
            out@ == spec_joined_procedures(views.take(i as int)),
        decreases procedures@.len() - i,
    {
        if i > 0 {
            out.append(", ");
        }
        let p = &procedures[i];
        out.append(p.name.as_str());
        if !p.runway.as_str().is_empty() {
            out.append(" (RWY ");
            out.append(p.runway.as_str());
            out.append(")");
        }
        i += 1;
        proof {
            assert(views.take(i as int).drop_last() =~= views.take(i as int - 1));
            assert(views.take(i as int).last() == views[i as int - 1]);
        }
    }
    proof {
        assert(views.take(procedures@.len() as int) =~= views);
    }
    out
}

} // verus!
