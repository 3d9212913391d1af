//! Derivation of IAM ARNs from account identifiers.

use vstd::prelude::*;
use vstd::string::StringExecFns;

verus! {

/// The ARN of the root principal of `account`.
pub open spec fn root_principal_of(account: Seq<char>) -> Seq<char> {
    "arn:aws:iam::"@ + account + ":root"@
}

/// The ARN of the role at `sub_role_path` in `account`. The path is appended
/// as it is given: it names a role only where it begins with `/`.
pub open spec fn role_arn_of(account: Seq<char>, sub_role_path: Seq<char>) -> Seq<char> {
    "arn:aws:iam::"@ + account + ":role"@ + sub_role_path
}

/// The root principals of `accounts`, in the same order.
pub open spec fn principals_of(accounts: Seq<Seq<char>>) -> Seq<Seq<char>> {
    Seq::new(accounts.len(), |i: int| root_principal_of(accounts[i]))
}

/// Builds `arn:aws:iam::<account>:root`.
pub fn root_principal(account: &String) -> (arn: String)
    ensures
        arn@ == root_principal_of(account@),
{
    let mut arn = String::from_str("arn:aws:iam::");
    arn.append(account.as_str());
    arn.append(":root");
    arn
}

/// Builds `arn:aws:iam::<account>:role<sub_role_path>`. Nothing is put between
/// `role` and the path, so a path without a leading `/` gives an ARN that names
/// no role; the path is not corrected here.
pub fn role_arn(account: &String, sub_role_path: &String) -> (arn: String)
    ensures
        arn@ == role_arn_of(account@, sub_role_path@),
{
    let mut arn = String::from_str("arn:aws:iam::");
    arn.append(account.as_str());
    arn.append(":role");
    arn.append(sub_role_path.as_str());
    arn
}

/// Builds the root principal of every account, in order.
pub fn principals(accounts: &Vec<String>) -> (out: Vec<String>)
    ensures
        crate::text::texts(out@) == principals_of(crate::text::texts(accounts@)),
{
    let mut out: Vec<String> = Vec::new();
    let mut i: usize = 0;
    while i < accounts.len()
        invariant
            i <= accounts.len(),
            out.len() == i,
            forall|k: int| 0 <= k < i ==> out@[k]@ == root_principal_of(#[trigger] accounts@[k]@),
        decreases accounts.len() - i,
    {
        out.push(root_principal(&accounts[i]));
        i += 1;
    }
    proof {
        assert(crate::text::texts(out@) =~= principals_of(crate::text::texts(accounts@)));
    }
    out
}

/// Two accounts have the same root principal only if they are the same account.
pub proof fn lemma_root_principal_injective(a: Seq<char>, b: Seq<char>)
    requires
        root_principal_of(a) == root_principal_of(b),
    ensures
        a == b,
{
    let p = "arn:aws:iam::"@;
    let s = ":root"@;
    let x = root_principal_of(a);
    let y = root_principal_of(b);
    assert(x.len() == p.len() + a.len() + s.len());
    assert(y.len() == p.len() + b.len() + s.len());
    assert(a.len() == b.len());
    assert forall|i: int| 0 <= i < a.len() implies a[i] == b[i] by {
        assert(x[p.len() + i] == a[i]);
        assert(y[p.len() + i] == b[i]);
    }
    assert(a =~= b);
}

/// The root principals of distinct accounts are distinct.
pub proof fn lemma_principals_distinct(accounts: Seq<Seq<char>>)
    requires
        accounts.no_duplicates(),
    ensures
        principals_of(accounts).no_duplicates(),
{
    let ps = principals_of(accounts);
    assert forall|i: int, j: int| 0 <= i < ps.len() && 0 <= j < ps.len() && i != j implies ps[i]
        != ps[j] by {
        if ps[i] == ps[j] {
            lemma_root_principal_injective(accounts[i], accounts[j]);
        }
    }
}

} // verus!
