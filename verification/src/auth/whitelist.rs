//! gRPC methods that may be called without a token.

use vstd::prelude::*;

use crate::text::str_eq;

verus! {

broadcast use vstd::string::group_string_axioms;

/// A set of method names.
#[derive(Debug, Clone)]
pub struct MethodWhitelist {
    methods: Vec<String>,
}

impl View for MethodWhitelist {
    type V = Set<Seq<char>>;

    open spec fn view(&self) -> Set<Seq<char>> {
        self.spec_methods().to_set()
    }
}

impl MethodWhitelist {
    /// The names, in insertion order.
    pub closed spec fn spec_methods(&self) -> Seq<Seq<char>> {
        self.methods@.map_values(|m: String| m@)
    }

    /// A whitelist holding the given names.
    pub fn from_names(names: &[&str]) -> (res: MethodWhitelist)
        ensures
            res@ == names@.map_values(|n: &str| n@).to_set(),
    {
        let mut methods: Vec<String> = Vec::new();
        let mut i: usize = 0;
        while i < names.len()
            invariant
                i <= names@.len(),
                methods@.len() == i,
                forall|j: int| 0 <= j < i ==> #[trigger] methods@[j]@ == names@[j]@,
            decreases names.len() - i,
        {
            let name: &str = names[i];
            let owned = name.to_string();
            methods.push(owned);
            i = i + 1;
        }
        assert(methods@.map_values(|m: String| m@) =~= names@.map_values(|n: &str| n@));
        MethodWhitelist { methods }
    }

    /// Whether `method` is one of the names.
    pub fn contains(&self, method: &str) -> (res: bool)
        ensures
            res == self@.contains(method@),
    {
        let mut i: usize = 0;
        while i < self.methods.len()
            invariant
                i <= self.methods@.len(),
                forall|j: int| 0 <= j < i ==> self.methods@[j]@ != method@,
            decreases self.methods.len() - i,
        {
            if str_eq(self.methods[i].as_str(), method) {
                assert(self.spec_methods()[i as int] == method@);
                return true;
            }
            i = i + 1;
        }
        assert(!self.spec_methods().contains(method@)) by {
            if self.spec_methods().contains(method@) {
                let k = choose|k: int| 0 <= k < self.spec_methods().len() && self.spec_methods()[k] == method@;
                assert(self.methods@[k]@ == method@);
            }
        }
        false
    }
}

/// `"/user.UserService/"`
pub open spec fn user_service_path() -> Seq<char> {
    "/user.UserService/"@
}

/// The short method names that need no token.
pub open spec fn short_method_names() -> Set<Seq<char>> {
    set!["Register"@, "Login"@, "RefreshToken"@]
}

/// The full method paths that need no token.
pub open spec fn default_method_paths() -> Set<Seq<char>> {
    set!["/user.UserService/Register"@, "/user.UserService/Login"@, "/user.UserService/RefreshToken"@]
}

/// gRPC methods that don't require authentication.
pub fn default_whitelist() -> (res: MethodWhitelist)
    ensures
        res@ == default_method_paths(),
{
    let names: [&str; 3] = ["/user.UserService/Register", "/user.UserService/Login", "/user.UserService/RefreshToken"];
    let res = MethodWhitelist::from_names(&names);
    assert(names@.map_values(|n: &str| n@).to_set() =~= default_method_paths()) by {
        assert(names@.map_values(|n: &str| n@) =~= seq![
            "/user.UserService/Register"@,
            "/user.UserService/Login"@,
            "/user.UserService/RefreshToken"@,
        ]);
    }
    res
}

/// Short method names (without package prefix) for convenience.
pub fn short_whitelist() -> (res: MethodWhitelist)
    ensures
        res@ == short_method_names(),
{
    let names: [&str; 3] = ["Register", "Login", "RefreshToken"];
    let res = MethodWhitelist::from_names(&names);
    assert(names@.map_values(|n: &str| n@).to_set() =~= short_method_names()) by {
        assert(names@.map_values(|n: &str| n@) =~= seq!["Register"@, "Login"@, "RefreshToken"@]);
    }
    res
}

/// The full paths are exactly the short names under the user service path.
pub proof fn lemma_default_paths_are_qualified_short_names()
    ensures
        default_method_paths() == short_method_names().map(|s: Seq<char>| user_service_path() + s),
{
    reveal_strlit("/user.UserService/");
    reveal_strlit("Register");
    reveal_strlit("Login");
    reveal_strlit("RefreshToken");
    reveal_strlit("/user.UserService/Register");
    reveal_strlit("/user.UserService/Login");
    reveal_strlit("/user.UserService/RefreshToken");
    let f = |s: Seq<char>| user_service_path() + s;
    assert(f("Register"@) =~= "/user.UserService/Register"@);
    assert(f("Login"@) =~= "/user.UserService/Login"@);
    assert(f("RefreshToken"@) =~= "/user.UserService/RefreshToken"@);
    assert(short_method_names().map(f) =~= default_method_paths()) by {
        assert forall|x: Seq<char>| default_method_paths().contains(x) implies short_method_names().map(
            f,
        ).contains(x) by {
            if x == "/user.UserService/Register"@ {
                assert(short_method_names().contains("Register"@));
            } else if x == "/user.UserService/Login"@ {
                assert(short_method_names().contains("Login"@));
            } else {
                assert(short_method_names().contains("RefreshToken"@));
            }
        }
    }
}

} // verus!
