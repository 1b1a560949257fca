//! The mock job data: a fixed pool of six postings, cycled to fill a
//! listing of any requested length, and looked up by identifier.

use vstd::prelude::*;

verus! {

/// One job posting, as the view components consume it.
pub struct JobDetails {
    pub id: String,
    pub title: String,
    pub company: String,
    pub location: String,
    pub salary: String,
    pub description: String,
}

/// The identifier of base job `k`.
pub open spec fn base_id(k: int) -> Seq<char> {
    if k == 0 {
        "2"@
    } else if k == 1 {
        "1"@
    } else if k == 2 {
        "3"@
    } else if k == 3 {
        "alsdkjaslkdsf"@
    } else if k == 4 {
        "ldsfjosadjasd"@
    } else {
        "lidfsjasdlkajsd"@
    }
}

/// The title of base job `k`.
pub open spec fn base_title(k: int) -> Seq<char> {
    if k == 0 {
        "Software Developer Intern"@
    } else if k == 1 {
        "Sr Rust Developer"@
    } else if k == 2 {
        "Technical Product Manager - AI Enhancement Policy Team"@
    } else if k == 3 {
        "Jr Fullstack Developer"@
    } else if k == 4 {
        "Staff QA Specialist"@
    } else {
        "Software Developer"@
    }
}

/// The company of base job `k`.
pub open spec fn base_company(k: int) -> Seq<char> {
    if k == 0 {
        "Cloudflare"@
    } else if k == 1 {
        "GitHub"@
    } else if k == 2 {
        "Amazon"@
    } else if k == 3 {
        "Adobe"@
    } else if k == 4 {
        "Google"@
    } else {
        "Crowdstrike"@
    }
}

/// The location of base job `k`.
pub open spec fn base_location(k: int) -> Seq<char> {
    if k == 0 {
        "New York"@
    } else if k == 1 {
        "Vancouver"@
    } else if k == 2 {
        "Seattle"@
    } else if k == 3 {
        "Seattle"@
    } else if k == 4 {
        "San Fransisco"@
    } else {
        "New York"@
    }
}

/// The salary of base job `k`.
pub open spec fn base_salary(k: int) -> Seq<char> {
    if k == 0 {
        "120K USD"@
    } else if k == 1 {
        "187K CAD"@
    } else if k == 2 {
        "278K USD"@
    } else if k == 3 {
        "73K CAD"@
    } else if k == 4 {
        "572K USD"@
    } else {
        "147K USD"@
    }
}

/// The description of base job `k`.
pub open spec fn base_description(k: int) -> Seq<char> {
    if k == 0 {
        "You're gonna be the coffee boy, sorry"@
    } else if k == 1 {
        "Join the up and coming hype driven development!"@
    } else if k == 2 {
        "You are the new team SCRUMLORD and AGILEMASTER"@
    } else if k == 3 {
        "Have fun you reach andy"@
    } else if k == 4 {
        "You are head honcho and hate your job"@
    } else {
        "Want to investigate Snarling Bear or Smiling Panda?"@
    }
}

/// Field-for-field: `j` is base job `k` of the mock pool.
pub open spec fn is_base_job(j: JobDetails, k: int) -> bool {
    &&& j.id@ == base_id(k)
    &&& j.title@ == base_title(k)
    &&& j.company@ == base_company(k)
    &&& j.location@ == base_location(k)
    &&& j.salary@ == base_salary(k)
    &&& j.description@ == base_description(k)
}

impl JobDetails {
    /// A field-for-field copy whose strings read the same.
    pub fn duplicate(&self) -> (r: JobDetails)
        ensures
            r == *self,
    {
        JobDetails {
            id: self.id.clone(),
            title: self.title.clone(),
            company: self.company.clone(),
            location: self.location.clone(),
            salary: self.salary.clone(),
            description: self.description.clone(),
        }
    }
}

/// Builds one base job of the mock pool.
fn base_job(k: usize) -> (r: JobDetails)
    requires
        k < 6,
    ensures
        is_base_job(r, k as int),
{
    if k == 0 {
        JobDetails {
            id: String::from_str("2"),
            title: String::from_str("Software Developer Intern"),
            company: String::from_str("Cloudflare"),
            location: String::from_str("New York"),
            salary: String::from_str("120K USD"),
            description: String::from_str("You're gonna be the coffee boy, sorry"),
        }
    } else if k == 1 {
        JobDetails {
            id: String::from_str("1"),
            title: String::from_str("Sr Rust Developer"),
            company: String::from_str("GitHub"),
            location: String::from_str("Vancouver"),
            salary: String::from_str("187K CAD"),
            description: String::from_str("Join the up and coming hype driven development!"),
        }
    } else if k == 2 {
        JobDetails {
            id: String::from_str("3"),
            title: String::from_str("Technical Product Manager - AI Enhancement Policy Team"),
            company: String::from_str("Amazon"),
            location: String::from_str("Seattle"),
            salary: String::from_str("278K USD"),
            description: String::from_str("You are the new team SCRUMLORD and AGILEMASTER"),
        }
    } else if k == 3 {
        JobDetails {
            id: String::from_str("alsdkjaslkdsf"),
            title: String::from_str("Jr Fullstack Developer"),
            company: String::from_str("Adobe"),
            location: String::from_str("Seattle"),
            salary: String::from_str("73K CAD"),
            description: String::from_str("Have fun you reach andy"),
        }
    } else if k == 4 {
        JobDetails {
            id: String::from_str("ldsfjosadjasd"),
            title: String::from_str("Staff QA Specialist"),
            company: String::from_str("Google"),
            location: String::from_str("San Fransisco"),
            salary: String::from_str("572K USD"),
            description: String::from_str("You are head honcho and hate your job"),
        }
    } else {
        JobDetails {
            id: String::from_str("lidfsjasdlkajsd"),
            title: String::from_str("Software Developer"),
            company: String::from_str("Crowdstrike"),
            location: String::from_str("New York"),
            salary: String::from_str("147K USD"),
            description: String::from_str("Want to investigate Snarling Bear or Smiling Panda?"),
        }
    }
}

/// Generates `num` postings by cycling through the six-job pool, in
/// pool order: entry `i` is base job `i mod 6`.
pub fn mock_jobs(num: usize) -> (r: Vec<JobDetails>)
    ensures
        r@.len() == num,
        forall|i: int| 0 <= i < num ==> is_base_job(#[trigger] r@[i], i % 6),
{
    let mut out: Vec<JobDetails> = Vec::new();
    let mut i: usize = 0;
    while i < num
        invariant
            i <= num,
            out@.len() == i,
            forall|j: int| 0 <= j < i ==> is_base_job(#[trigger] out@[j], j % 6),
        decreases num - i,
    {
        out.push(base_job(i % 6));
        i += 1;
    }
    out
}

/// The pool index of the job with the given identifier, if any.
pub open spec fn job_index_of(id: Seq<char>) -> Option<int> {
    if base_id(0) == id {
        Some(0int)
    } else if base_id(1) == id {
        Some(1int)
    } else if base_id(2) == id {
        Some(2int)
    } else if base_id(3) == id {
        Some(3int)
    } else if base_id(4) == id {
        Some(4int)
    } else {
        if base_id(5) == id {
            Some(5int)
        } else {
            None
        }
    }
}

/// Looks a posting up by identifier in the mock pool: `Some` exactly
/// when the identifier is one of the pool's six, carrying that job.
pub fn get_mock_job(id: String) -> (r: Option<JobDetails>)
    ensures
        (r is Some) == (job_index_of(id@) is Some),
        r matches Some(j) ==> job_index_of(id@) matches Some(k) && is_base_job(j, k),
{
    let pool = mock_jobs(6);
    let mut k: usize = 0;
    while k < 6
        invariant
            k <= 6,
            pool@.len() == 6,
            forall|i: int| 0 <= i < 6 ==> is_base_job(#[trigger] pool@[i], i % 6),
            forall|i: int| 0 <= i < k ==> base_id(i) != id@,
        decreases 6 - k,
    {
        if crate::strutil::str_eq(pool[k].id.as_str(), id.as_str()) {
            proof {
                assert(base_id(k as int) == id@);
            }
            return Some(pool[k].duplicate());
        }
        k += 1;
    }
    None
}

} // verus!
