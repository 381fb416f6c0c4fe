use vstd::prelude::*;

verus! {

/// A label as the server reports it. Tasks reference labels by display
/// name, not by identifier, at the wire boundary.
#[derive(Debug, Clone, PartialEq)]
pub struct Label {
    pub id: String,
    pub name: String,
    pub color: String,
    pub order: i64,
    pub is_favorite: bool,
}

/// The display names of the labels, in listing order, as they are
/// presented for a multi-choice selection.
pub fn label_names(labels: &Vec<Label>) -> (r: Vec<String>)
    ensures
        r@.len() == labels@.len(),
        forall|i: int| 0 <= i < labels@.len() ==> r@[i] == labels@[i].name,
{
    let mut names: Vec<String> = Vec::new();
    let mut i: usize = 0;
    while i < labels.len()
        invariant
            0 <= i <= labels@.len(),
            names@.len() == i,
            forall|j: int| 0 <= j < i ==> names@[j] == labels@[j].name,
        decreases labels@.len() - i,
    {
        names.push(labels[i].name.clone());
        i = i + 1;
    }
    names
}

/// Each chosen index mapped back to the name of the label at that
/// position, in the order the indices were chosen.
pub fn label_names_for(labels: &Vec<Label>, chosen: &Vec<usize>) -> (r: Vec<String>)
    requires
        forall|i: int| 0 <= i < chosen@.len() ==> chosen@[i] < labels@.len(),
    ensures
        r@.len() == chosen@.len(),
        forall|i: int| 0 <= i < chosen@.len() ==> r@[i] == labels@[chosen@[i] as int].name,
{
    let mut names: Vec<String> = Vec::new();
    let mut i: usize = 0;
    while i < chosen.len()
        invariant
            0 <= i <= chosen@.len(),
            names@.len() == i,
            forall|j: int| 0 <= j < chosen@.len() ==> chosen@[j] < labels@.len(),
            forall|j: int| 0 <= j < i ==> names@[j] == labels@[chosen@[j] as int].name,
        decreases chosen@.len() - i,
    {
        let idx = chosen[i];
        names.push(labels[idx].name.clone());
        i = i + 1;
    }
    names
}

} // verus!
