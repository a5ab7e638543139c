//! The environment-backed secrets the process needs before any other work
//! runs.

use vstd::prelude::*;
use vstd::string::StringExecFns;

verus! {

/// The three API secrets read from the process environment at startup.
#[derive(Clone, Debug)]
pub struct Secrets {
    pub marvel_public_key: String,
    pub marvel_private_key: String,
    pub comicvine_key: String,
}

/// One of the three environment variables the process requires.
#[derive(Clone, Copy, PartialEq, Eq, Structural, Debug)]
pub enum SecretVar {
    MarvelPublicKey,
    MarvelPrivateKey,
    ComicvineKey,
}

/// The name of each required environment variable.
pub open spec fn var_name_spec(v: SecretVar) -> Seq<char> {
    match v {
        SecretVar::MarvelPublicKey => "MARVEL_API_PUBLIC_KEY"@,
        SecretVar::MarvelPrivateKey => "MARVEL_API_PRIVATE_KEY"@,
        SecretVar::ComicvineKey => "COMICVINE_API_KEY"@,
    }
}

/// The message with which the process terminates when a required variable
/// is unset: the variable's name followed by ` not set`.
pub open spec fn missing_message_spec(v: SecretVar) -> Seq<char> {
    var_name_spec(v) + " not set"@
}

impl SecretVar {
    /// The environment variable's name, as an executable string.
    pub fn name(&self) -> (r: &'static str)
        ensures
            r@ == var_name_spec(*self),
    {
        match self {
            SecretVar::MarvelPublicKey => "MARVEL_API_PUBLIC_KEY",
            SecretVar::MarvelPrivateKey => "MARVEL_API_PRIVATE_KEY",
            SecretVar::ComicvineKey => "COMICVINE_API_KEY",
        }
    }

    /// The termination message for this variable being unset.
    pub fn missing_message(&self) -> (r: String)
        ensures
            r@ == missing_message_spec(*self),
    {
        String::from_str(self.name()).concat(" not set")
    }
}

/// Builds the secrets record from the values the environment held for the
/// three required variables, `None` standing for one that is unset.
/// Succeeds exactly when all three are set; otherwise reports the first
/// unset variable, in the order the variables are read at startup.
pub fn gather_secrets(
    marvel_public_key: Option<String>,
    marvel_private_key: Option<String>,
    comicvine_key: Option<String>,
) -> (r: Result<Secrets, SecretVar>)
    ensures
        r is Ok <==> (marvel_public_key is Some && marvel_private_key is Some && comicvine_key
            is Some),
        r is Ok ==> r->Ok_0.marvel_public_key == marvel_public_key->Some_0
            && r->Ok_0.marvel_private_key == marvel_private_key->Some_0
            && r->Ok_0.comicvine_key == comicvine_key->Some_0,
        marvel_public_key is None ==> r == Result::<Secrets, SecretVar>::Err(
            SecretVar::MarvelPublicKey,
        ),
        marvel_public_key is Some && marvel_private_key is None ==> r == Result::<
            Secrets,
            SecretVar,
        >::Err(SecretVar::MarvelPrivateKey),
        marvel_public_key is Some && marvel_private_key is Some && comicvine_key is None ==> r
            == Result::<Secrets, SecretVar>::Err(SecretVar::ComicvineKey),
{
    let marvel_public_key = match marvel_public_key {
        Some(v) => v,
        None => {
            return Err(SecretVar::MarvelPublicKey);
        },
    };
    let marvel_private_key = match marvel_private_key {
        Some(v) => v,
        None => {
            return Err(SecretVar::MarvelPrivateKey);
        },
    };
    let comicvine_key = match comicvine_key {
        Some(v) => v,
        None => {
            return Err(SecretVar::ComicvineKey);
        },
    };
    Ok(Secrets { marvel_public_key, marvel_private_key, comicvine_key })
}

/// The termination message for an unset variable names that variable: it
/// begins with the variable's name, character for character.
pub proof fn lemma_missing_message_names_variable(v: SecretVar)
    ensures
        missing_message_spec(v).len() > var_name_spec(v).len(),
        missing_message_spec(v).subrange(0, var_name_spec(v).len() as int) == var_name_spec(v),
{
    reveal_strlit(" not set");
    assert(missing_message_spec(v).subrange(0, var_name_spec(v).len() as int) =~= var_name_spec(
        v,
    ));
}

} // verus!
