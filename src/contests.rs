//! The aggregation model: every discovered contest with its contracts, in
//! discovery order.
use vstd::prelude::*;

verus! {

/// One inspected contract of a contest.
pub struct Contract {
    pub name: String,
    pub bytecode: String,
    pub pragma_version: String,
}

/// One contest: its repository name and its contracts in discovery order.
pub struct Contest {
    pub name: String,
    pub contracts: Vec<Contract>,
}

/// Every contest found during one run, in discovery order.
pub struct Contests {
    pub contests: Vec<Contest>,
}

impl Contract {
    pub fn new(name: String, bytecode: String, pragma_version: String) -> (r: Contract)
        ensures
            r.name@ == name@,
            r.bytecode@ == bytecode@,
            r.pragma_version@ == pragma_version@,
    {
        Contract { name, bytecode, pragma_version }
    }
}

impl Contest {
    pub fn new(name: &str) -> (r: Contest)
        ensures
            r.name@ == name@,
            r.contracts@.len() == 0,
    {
        Contest { name: String::from_str(name), contracts: Vec::new() }
    }

    pub fn add_contract(&mut self, contract: Contract)
        ensures
            final(self).name == old(self).name,
            final(self).contracts@ == old(self).contracts@.push(contract),
    {
        self.contracts.push(contract);
    }

    /// Records a contract once its pragma version is known. The bytecode is
    /// stored as given, even when empty; without a pragma version nothing is
    /// stored. Returns whether the contract was added.
    pub fn record_contract(&mut self, name: String, bytecode: String, pragma_version: Option<String>) -> (added: bool)
        ensures
            added == pragma_version.is_some(),
            final(self).name == old(self).name,
            pragma_version.is_none() ==> final(self).contracts@ == old(self).contracts@,
            pragma_version.is_some() ==> {
                &&& final(self).contracts@.len() == old(self).contracts@.len() + 1
                &&& final(self).contracts@.drop_last() == old(self).contracts@
                &&& final(self).contracts@.last().name@ == name@
                &&& final(self).contracts@.last().bytecode@ == bytecode@
                &&& final(self).contracts@.last().pragma_version@ == pragma_version->Some_0@
            },
    {
        match pragma_version {
            Some(version) => {
                let contract = Contract::new(name, bytecode, version);
                self.add_contract(contract);
                proof {
                    assert(self.contracts@.drop_last() =~= old(self).contracts@);
                }
                true
            },
            None => false,
        }
    }
}

impl Contests {
    pub fn new() -> (r: Contests)
        ensures
            r.contests@.len() == 0,
    {
        Contests { contests: Vec::new() }
    }

    pub fn add_contest(&mut self, contest: Contest)
        ensures
            final(self).contests@ == old(self).contests@.push(contest),
    {
        self.contests.push(contest);
    }
}

} // verus!
