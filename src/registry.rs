//! A registry of employees by department.
use std::collections::HashMap;
use vstd::prelude::*;
use vstd::string::StringExecFns;
use crate::shape::same_text;

verus! {

pub struct Employee {
    pub name: String,
    pub department: String,
}

impl Employee {
    /// The employee as displayed, on a line of its own.
    pub fn describe(&self) -> (r: String)
        ensures
            r@ == "Employee: "@ + self.name@ + ", Department: "@ + self.department@ + "\n"@,
    {
        let mut r = String::from_str("Employee: ");
        r.append(self.name.as_str());
        r.append(", Department: ");
        r.append(self.department.as_str());
        r.append("\n");
        r
    }
}

/// Whether `lists` holds each department list of `registry`, and nothing
/// else.
#[verifier::opaque]
pub open spec fn lists_of(registry: Map<&str, Vec<Employee>>, lists: Seq<&Vec<Employee>>) -> bool {
    &&& forall|i: int| #![trigger lists[i]] 0 <= i < lists.len() ==> exists|k: &str| #[trigger] registry.contains_key(k) && registry[k] == *lists[i]
    &&& forall|k: &str| #![trigger registry.contains_key(k)] registry.contains_key(k) ==> exists|i: int| 0 <= i < lists.len() && #[trigger] lists[i] == registry[k]
}

/// Relies on `HashMap::values`: every department's list, once each, in the
/// order the map walks them, which this library leaves open.
#[verifier::external_body]
fn departments<'m, 'k>(registry: &'m HashMap<&'k str, Vec<Employee>>) -> (r: Vec<&'m Vec<Employee>>)
    ensures
        lists_of(registry@, r@),
{
    registry.values().collect()
}

/// Whether some department of `registry` lists an employee named `name`.
pub open spec fn registered(registry: Map<&str, Vec<Employee>>, name: Seq<char>) -> bool {
    exists|k: &str, j: int|
        #![trigger registry[k]@[j]]
        registry.contains_key(k) && 0 <= j < registry[k]@.len() && registry[k]@[j].name@ == name
}

/// Whether an employee named `name` is registered in any department.
pub fn employee_exists(name: &str, registry: &HashMap<&str, Vec<Employee>>) -> (r: bool)
    ensures
        r == registered(registry@, name@),
{
    let lists = departments(registry);
    let mut i: usize = 0;
    while i < lists.len()
        invariant
            i <= lists@.len(),
            lists_of(registry@, lists@),
            forall|d: int, j: int| 0 <= d < i && 0 <= j < lists@[d]@.len() ==> (#[trigger] lists@[d]@[j]).name@ != name@,
        decreases lists@.len() - i,
    {
        let department = lists[i];
        let mut j: usize = 0;
        while j < department.len()
            invariant
                i < lists@.len(),
                lists_of(registry@, lists@),
                forall|d: int, l: int| 0 <= d < i && 0 <= l < lists@[d]@.len() ==> (#[trigger] lists@[d]@[l]).name@ != name@,
                department == lists@[i as int],
                j <= department@.len(),
                forall|l: int| 0 <= l < j ==> (#[trigger] department@[l]).name@ != name@,
            decreases department@.len() - j,
        {
            if same_text(department[j].name.as_str(), name) {
                proof {
                    reveal(lists_of);
                    let k = choose|k: &str| #[trigger] registry@.contains_key(k) && registry@[k] == *lists@[i as int];
                    assert(registry@[k]@[j as int].name@ == name@);
                }
                return true;
            }
            j = j + 1;
        }
        i = i + 1;
    }
    proof {
        reveal(lists_of);
        assert forall|k: &str, j: int|
            registry@.contains_key(k) && 0 <= j < registry@[k]@.len() implies #[trigger] registry@[k]@[j].name@ != name@ by {
            let d = choose|d: int| 0 <= d < lists@.len() && #[trigger] lists@[d] == registry@[k];
            assert(lists@[d]@[j] == registry@[k]@[j]);
        }
    }
    false
}

} // verus!
