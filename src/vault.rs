use crate::identity::Identity;
use crate::signing_key::SigningKey;
use vstd::prelude::*;

verus! {

broadcast use vstd::std_specs::vec::axiom_vec_index_decreases;

/// A key held in a vault, tagged by its kind.
pub enum Key {
    Signing(SigningKey),
}

impl Key {
    /// Whether this key is the public-only counterpart of `other`, of the
    /// same kind.
    pub open spec fn is_public_view_of(&self, other: Key) -> bool {
        match (*self, other) {
            (Key::Signing(a), Key::Signing(b)) => a.is_redaction_of(b),
        }
    }

    /// Whether this key carries secret material.
    pub open spec fn has_secret(&self) -> bool {
        match *self {
            Key::Signing(k) => !k.signing_refused(),
        }
    }

    /// The same key with its secret material removed.
    pub fn to_public_view(&self) -> (r: Key)
        ensures
            r.is_public_view_of(*self),
    {
        match self {
            Key::Signing(k) => Key::Signing(k.get_redacted_key()),
        }
    }
}

/// Whether `public` holds, entry by entry and in order, the public views of
/// `keys`.
pub open spec fn keys_redacted(public: Seq<Key>, keys: Seq<Key>) -> bool {
    &&& public.len() == keys.len()
    &&& forall|i: int| 0 <= i < keys.len() ==> (#[trigger] public[i]).is_public_view_of(keys[i])
}

/// The secondary identities after appending `id`: a list of `id` alone where
/// there were none.
pub open spec fn with_identity(ids: Option<Seq<Identity>>, id: Identity) -> Option<Seq<Identity>> {
    match ids {
        None => Some(seq![id]),
        Some(s) => Some(s.push(id)),
    }
}

/// An identity with its keys, its further identities, and the vaults it
/// holds (each an independent value, so the nesting is a tree).
pub struct Vault {
    primary_identity: Identity,
    secondary_identities: Option<Vec<Identity>>,
    vault_keys: Vec<Key>,
    external_vaults: Vec<Vault>,
}

impl Vault {
    pub closed spec fn primary(&self) -> Identity {
        self.primary_identity
    }

    pub closed spec fn secondary(&self) -> Option<Seq<Identity>> {
        match self.secondary_identities {
            Some(v) => Some(v@),
            None => None,
        }
    }

    pub closed spec fn keys(&self) -> Seq<Key> {
        self.vault_keys@
    }

    pub closed spec fn externals(&self) -> Seq<Vault> {
        self.external_vaults@
    }

    /// Whether this vault is the public view of `v`: the same identities,
    /// the public views of its keys, and the public view of each nested
    /// vault, to any depth.
    pub open spec fn is_public_view_of(&self, v: Vault) -> bool
        decreases v,
    {
        &&& self.primary() == v.primary()
        &&& self.secondary() == v.secondary()
        &&& keys_redacted(self.keys(), v.keys())
        &&& self.externals().len() == v.externals().len()
        &&& forall|i: int|
            0 <= i < v.externals().len() ==> self.externals()[i].is_public_view_of(
                #[trigger] v.externals()[i],
            )
    }

    pub fn new(
        primary_identity: Identity,
        secondary_identities: Option<Vec<Identity>>,
        key_types: Vec<Key>,
    ) -> (r: Self)
        ensures
            r.primary() == primary_identity,
            r.secondary() == (match secondary_identities {
                Some(v) => Some(v@),
                None => None::<Seq<Identity>>,
            }),
            r.keys() == key_types@,
            r.externals() == Seq::<Vault>::empty(),
    {
        Vault {
            primary_identity,
            secondary_identities,
            vault_keys: key_types,
            external_vaults: Vec::new(),
        }
    }

    /// A vault from all of its parts, as when loading a stored one.
    pub fn from_parts(
        primary_identity: Identity,
        secondary_identities: Option<Vec<Identity>>,
        vault_keys: Vec<Key>,
        external_vaults: Vec<Vault>,
    ) -> (r: Self)
        ensures
            r.primary() == primary_identity,
            r.secondary() == (match secondary_identities {
                Some(v) => Some(v@),
                None => None::<Seq<Identity>>,
            }),
            r.keys() == vault_keys@,
            r.externals() == external_vaults@,
    {
        Vault { primary_identity, secondary_identities, vault_keys, external_vaults }
    }

    /// Appends a secondary identity, starting the list where there was none.
    pub fn add_secondary_identity(&mut self, identity: Identity)
        ensures
            final(self).secondary() == with_identity(old(self).secondary(), identity),
            final(self).primary() == old(self).primary(),
            final(self).keys() == old(self).keys(),
            final(self).externals() == old(self).externals(),
    {
        let mut ids = match self.secondary_identities.take() {
            Some(v) => v,
            None => Vec::new(),
        };
        ids.push(identity);
        self.secondary_identities = Some(ids);
    }

    /// All keys, secret material included.
    pub fn get_secret_keys(&self) -> (r: &Vec<Key>)
        ensures
            r@ == self.keys(),
    {
        &self.vault_keys
    }

    /// The public view of each key, in the same order.
    pub fn get_public_keys(&self) -> (r: Vec<Key>)
        ensures
            keys_redacted(r@, self.keys()),
            forall|i: int| 0 <= i < r@.len() ==> !(#[trigger] r@[i]).has_secret(),
    {
        let mut public_keys: Vec<Key> = Vec::new();
        let mut i: usize = 0;
        while i < self.vault_keys.len()
            invariant
                i <= self.vault_keys@.len(),
                public_keys@.len() == i,
                forall|j: int|
                    0 <= j < i ==> #[trigger] public_keys@[j].is_public_view_of(self.vault_keys@[j]),
            decreases self.vault_keys@.len() - i,
        {
            public_keys.push(self.vault_keys[i].to_public_view());
            i = i + 1;
        }
        public_keys
    }

    pub fn get_external_vaults(&self) -> (r: &Vec<Vault>)
        ensures
            r@ == self.externals(),
    {
        &self.external_vaults
    }

    pub fn get_primary_identity(&self) -> (r: &Identity)
        ensures
            *r == self.primary(),
    {
        &self.primary_identity
    }

    pub fn get_secondary_identities(&self) -> (r: &Option<Vec<Identity>>)
        ensures
            r.is_some() == self.secondary().is_some(),
            r.is_some() ==> r.unwrap()@ == self.secondary().unwrap(),
    {
        &self.secondary_identities
    }

    /// The vault with every secret removed: the same identities, the public
    /// keys, and each nested vault's public view, to any depth.
    pub fn to_public_view(&self) -> (r: Vault)
        ensures
            r.is_public_view_of(*self),
        decreases *self,
    {
        let secondary_identities = match &self.secondary_identities {
            Some(ids) => Some(copy_identities(ids)),
            None => None,
        };
        let vault_keys = self.get_public_keys();
        let mut external_vaults: Vec<Vault> = Vec::new();
        let mut i: usize = 0;
        while i < self.external_vaults.len()
            invariant
                i <= self.external_vaults@.len(),
                external_vaults@.len() == i,
                forall|j: int|
                    0 <= j < i ==> external_vaults@[j].is_public_view_of(
                        #[trigger] self.external_vaults@[j],
                    ),
            decreases self.external_vaults@.len() - i,
        {
            let nested = self.external_vaults[i].to_public_view();
            external_vaults.push(nested);
            i = i + 1;
        }
        Vault {
            primary_identity: self.primary_identity.duplicate(),
            secondary_identities,
            vault_keys,
            external_vaults,
        }
    }
}

fn copy_identities(ids: &Vec<Identity>) -> (r: Vec<Identity>)
    ensures
        r@ == ids@,
{
    let mut out: Vec<Identity> = Vec::new();
    let mut i: usize = 0;
    while i < ids.len()
        invariant
            i <= ids@.len(),
            out@ == ids@.subrange(0, i as int),
        decreases ids@.len() - i,
    {
        out.push(ids[i].duplicate());
        i = i + 1;
        assert(out@ =~= ids@.subrange(0, i as int));
    }
    assert(out@ =~= ids@);
    out
}

/// Adding identities A and then B leaves them last, in that order; on a vault
/// that had none, the list is exactly [A, B].
pub proof fn lemma_additions_keep_order(start: Option<Seq<Identity>>, a: Identity, b: Identity)
    ensures
        with_identity(with_identity(start, a), b) == Some(
            match start {
                Some(s) => s,
                None => Seq::<Identity>::empty(),
            } + seq![a, b],
        ),
        with_identity(with_identity(None, a), b) == Some(seq![a, b]),
{
    match start {
        Some(s) => {
            assert(s.push(a).push(b) =~= s + seq![a, b]);
        },
        None => {
            assert(seq![a].push(b) =~= Seq::<Identity>::empty() + seq![a, b]);
        },
    }
    assert(seq![a].push(b) =~= seq![a, b]);
}

/// The public keys of a vault are as many as its keys, of the same kinds in
/// the same order, and none carries secret material.
pub proof fn lemma_public_keys_hold_no_secret(public: Seq<Key>, keys: Seq<Key>)
    requires
        keys_redacted(public, keys),
    ensures
        public.len() == keys.len(),
        forall|i: int| 0 <= i < public.len() ==> !(#[trigger] public[i]).has_secret(),
{
}

} // verus!
