//! Certificates and private keys as DER bytes, read from and written to PEM.

use crate::error::{Error, FormatError, Material};
use crate::pem_text::{
    blocks_of, encode_pem, is_framed, parse_pem, pem_blocks, pem_encoding, PemBlock, PemEntry,
};
use vstd::prelude::*;
use vstd::slice::slice_to_vec;
use vstd::utf8::encode_utf8;

verus! {

/// Bytes that start with the ASN.1 SEQUENCE tag, as every DER certificate does.
pub open spec fn is_der_sequence(bytes: Seq<u8>) -> bool {
    bytes.len() > 0 && bytes[0] == 0x30u8
}

impl Material {
    /// The PEM tags under which this material is looked for.
    pub open spec fn has_tag(self, tag: Seq<char>) -> bool {
        match self {
            Material::Certificate => tag == "CERTIFICATE"@,
            Material::PrivateKey => tag == "PRIVATE KEY"@ || tag == "RSA PRIVATE KEY"@,
        }
    }

    /// The bytes that a value of this material may hold.
    pub open spec fn accepts(self, der: Seq<u8>) -> bool {
        match self {
            Material::Certificate => is_der_sequence(der),
            Material::PrivateKey => der.len() > 0,
        }
    }

    /// The error for bytes that this material does not accept.
    pub open spec fn refusal(self) -> FormatError {
        match self {
            Material::Certificate => FormatError::NotDerCertificate,
            Material::PrivateKey => FormatError::EmptyPrivateKey,
        }
    }

    /// The blocks that carry one of this material's tags, in their order.
    pub open spec fn tagged(self, blocks: Seq<PemBlock>) -> Seq<PemBlock> {
        blocks.filter(|b: PemBlock| self.has_tag(b.tag))
    }

    /// What a PEM buffer yields for this material, given the blocks found in
    /// it and the buffer itself.
    ///
    /// A tagged block with unacceptable bytes is an error before anything
    /// else. Then exactly one tagged block is the result; several are
    /// ambiguous; none among other blocks is its own error; and a buffer
    /// without any block is told apart by whether it starts like DER.
    pub open spec fn selection(self, blocks: Seq<PemBlock>, raw: Seq<u8>) -> Result<
        Seq<u8>,
        FormatError,
    > {
        let tagged = self.tagged(blocks);
        if exists|i: int|
            0 <= i < blocks.len() && self.has_tag(blocks[i].tag) && !self.accepts(
                #[trigger] blocks[i].contents,
            ) {
            Err(self.refusal())
        } else if tagged.len() == 1 {
            Ok(tagged[0].contents)
        } else if tagged.len() > 1 {
            Err(FormatError::Ambiguous { material: self, found: tagged.len() as usize })
        } else if blocks.len() != 0 {
            Err(FormatError::NoneOfKind { material: self })
        } else if is_der_sequence(raw) {
            Err(FormatError::LooksLikeDer)
        } else {
            Err(FormatError::NothingFound { material: self })
        }
    }

    /// Whether a tag names this material.
    fn names(self, tag: &String) -> (b: bool)
        ensures
            b == self.has_tag(tag@),
    {
        match self {
            Material::Certificate => *tag == "CERTIFICATE".to_owned(),
            Material::PrivateKey => *tag == "PRIVATE KEY".to_owned() || *tag
                == "RSA PRIVATE KEY".to_owned(),
        }
    }

    /// Whether bytes may stand for this material.
    fn admits(self, der: &[u8]) -> (b: bool)
        ensures
            b == self.accepts(der@),
    {
        match self {
            Material::Certificate => starts_like_der(der),
            Material::PrivateKey => der.len() > 0,
        }
    }

    /// The error for bytes that this material does not accept.
    fn refuse(self) -> (e: FormatError)
        ensures
            e == self.refusal(),
    {
        match self {
            Material::Certificate => FormatError::NotDerCertificate,
            Material::PrivateKey => FormatError::EmptyPrivateKey,
        }
    }

    /// Picks the DER bytes of this material out of parsed PEM entries.
    fn select(self, entries: &[PemEntry], raw: &[u8]) -> (r: Result<Vec<u8>, FormatError>)
        ensures
            match r {
                Ok(der) => self.selection(blocks_of(entries@), raw@) == Ok::<Seq<u8>, FormatError>(
                    der@,
                ),
                Err(e) => self.selection(blocks_of(entries@), raw@) == Err::<Seq<u8>, FormatError>(
                    e,
                ),
            },
    {
        let ghost blocks = blocks_of(entries@);
        let ghost pred = |b: PemBlock| self.has_tag(b.tag);
        let mut found: usize = 0;
        let mut chosen: Vec<u8> = Vec::new();
        let mut i: usize = 0;
        proof {
            assert(blocks.take(0) =~= Seq::<PemBlock>::empty());
            reveal(Seq::filter);
        }
        while i < entries.len()
            invariant
                i <= entries.len(),
                blocks == blocks_of(entries@),
                pred == (|b: PemBlock| self.has_tag(b.tag)),
                found == blocks.take(i as int).filter(pred).len(),
                found >= 1 ==> chosen@ == blocks.take(i as int).filter(pred)[0].contents,
                forall|j: int|
                    0 <= j < i && self.has_tag(blocks[j].tag) ==> self.accepts(
                        #[trigger] blocks[j].contents,
                    ),
            decreases entries.len() - i,
        {
            let entry = &entries[i];
            proof {
                assert(blocks[i as int] == entry@);
                assert(blocks.take(i + 1) =~= blocks.take(i as int).push(blocks[i as int]));
                blocks.take(i as int).lemma_filter_push(blocks[i as int], pred);
                blocks.take(i + 1).lemma_filter_len(pred);
            }
            if self.names(&entry.tag) {
                if !self.admits(entry.contents.as_slice()) {
                    assert(self.has_tag(blocks[i as int].tag) && !self.accepts(
                        blocks[i as int].contents,
                    ));
                    return Err(self.refuse());
                }
                if found == 0 {
                    chosen = slice_to_vec(entry.contents.as_slice());
                }
                found = found + 1;
            }
            i = i + 1;
        }
        proof {
            assert(blocks.take(i as int) =~= blocks);
        }
        if found == 1 {
            Ok(chosen)
        } else if found > 1 {
            Err(FormatError::Ambiguous { material: self, found })
        } else if entries.len() != 0 {
            Err(FormatError::NoneOfKind { material: self })
        } else if starts_like_der(raw) {
            Err(FormatError::LooksLikeDer)
        } else {
            Err(FormatError::NothingFound { material: self })
        }
    }
}

/// Whether the bytes start with the ASN.1 SEQUENCE tag.
fn starts_like_der(bytes: &[u8]) -> (b: bool)
    ensures
        b == is_der_sequence(bytes@),
{
    bytes.len() > 0 && bytes[0] == 0x30
}

/// A DER-encoded X.509 certificate: bytes that are not empty and start with
/// the ASN.1 SEQUENCE tag.
#[derive(Debug, Eq, PartialEq)]
pub struct Cert(Vec<u8>);

impl Clone for Cert {
    fn clone(&self) -> (c: Self)
        ensures
            c@ == self@,
    {
        proof {
            use_type_invariant(self);
        }
        Cert(slice_to_vec(self.0.as_slice()))
    }
}

impl View for Cert {
    type V = Seq<u8>;

    closed spec fn view(&self) -> Seq<u8> {
        self.0@
    }
}

impl Cert {
    #[verifier::type_invariant]
    spec fn well_formed(self) -> bool {
        is_der_sequence(self.0@)
    }

    /// What `from_pem` returns for a buffer: the rule of
    /// [`Material::selection`] on the blocks that the buffer holds.
    pub open spec fn parsed(buf: Seq<u8>) -> Result<Seq<u8>, FormatError> {
        Material::Certificate.selection(pem_blocks(buf), buf)
    }

    /// A quick test of whether bytes can be a certificate: a certificate is an
    /// ASN.1 SEQUENCE, whose tag is 0x30.
    pub fn looks_like_der(bytes: &[u8]) -> (b: bool)
        ensures
            b == is_der_sequence(bytes@),
    {
        starts_like_der(bytes)
    }

    /// Takes DER bytes as a certificate, unless they fail the quick test.
    pub fn from_der(cert_der: Vec<u8>) -> (r: Result<Cert, Error>)
        ensures
            match r {
                Ok(c) => is_der_sequence(cert_der@) && c@ == cert_der@,
                Err(e) => !is_der_sequence(cert_der@) && e == Error::Format(
                    FormatError::NotDerCertificate,
                ),
            },
    {
        if !Self::looks_like_der(cert_der.as_slice()) {
            return Err(Error::Format(FormatError::NotDerCertificate));
        }
        Ok(Cert(cert_der))
    }

    /// Picks the one certificate out of the entries of a PEM buffer. `raw` is
    /// the buffer that the entries were read from.
    pub fn from_pem_entries(entries: &[PemEntry], raw: &[u8]) -> (r: Result<Cert, Error>)
        ensures
            match r {
                Ok(c) => Material::Certificate.selection(blocks_of(entries@), raw@) == Ok::<
                    Seq<u8>,
                    FormatError,
                >(c@),
                Err(e) => e matches Error::Format(f) && Material::Certificate.selection(
                    blocks_of(entries@),
                    raw@,
                ) == Err::<Seq<u8>, FormatError>(f),
            },
    {
        match Material::Certificate.select(entries, raw) {
            Ok(der) => {
                proof {
                    lemma_selected_is_accepted(Material::Certificate, blocks_of(entries@), raw@);
                }
                Ok(Cert(der))
            },
            Err(f) => Err(Error::Format(f)),
        }
    }

    /// Reads the one certificate of a PEM buffer.
    pub fn from_pem(cert_der_pem: &[u8]) -> (r: Result<Cert, Error>)
        ensures
            match r {
                Ok(c) => Cert::parsed(cert_der_pem@) == Ok::<Seq<u8>, FormatError>(c@),
                Err(e) => e matches Error::Format(f) && Cert::parsed(cert_der_pem@) == Err::<
                    Seq<u8>,
                    FormatError,
                >(f),
            },
    {
        let entries = parse_pem(cert_der_pem);
        Self::from_pem_entries(entries.as_slice(), cert_der_pem)
    }

    /// The certificate as DER bytes.
    pub fn get_der(&self) -> (der: &[u8])
        ensures
            der@ == self@,
            is_der_sequence(der@),
    {
        proof {
            use_type_invariant(self);
        }
        self.0.as_slice()
    }

    /// The certificate as PEM text under the tag `CERTIFICATE`. The text
    /// holds this one entry and no other, so reading it back with `from_pem`
    /// gives this certificate again.
    pub fn to_pem(&self) -> (text: String)
        ensures
            text@ == pem_encoding("CERTIFICATE"@, self@),
            is_framed(text@, "CERTIFICATE"@),
            pem_blocks(encode_utf8(text@)) == seq![
                PemBlock { tag: "CERTIFICATE"@, contents: self@ },
            ],
            Cert::parsed(encode_utf8(text@)) == Ok::<Seq<u8>, FormatError>(self@),
    {
        proof {
            use_type_invariant(self);
            reveal_strlit("CERTIFICATE");
        }
        let text = encode_pem("CERTIFICATE", self.0.as_slice());
        proof {
            lemma_single_block(
                Material::Certificate,
                PemBlock { tag: "CERTIFICATE"@, contents: self@ },
                encode_utf8(text@),
            );
        }
        text
    }
}

/// A DER-encoded private key: bytes that are not empty. Nothing tells an RSA
/// key from any other.
#[derive(Debug, PartialEq)]
pub struct PrivateKey(Vec<u8>);

impl Clone for PrivateKey {
    fn clone(&self) -> (k: Self)
        ensures
            k@ == self@,
    {
        proof {
            use_type_invariant(self);
        }
        PrivateKey(slice_to_vec(self.0.as_slice()))
    }
}

impl View for PrivateKey {
    type V = Seq<u8>;

    closed spec fn view(&self) -> Seq<u8> {
        self.0@
    }
}

impl PrivateKey {
    #[verifier::type_invariant]
    spec fn well_formed(self) -> bool {
        self.0@.len() > 0
    }

    /// What `from_pem` returns for a buffer: the rule of
    /// [`Material::selection`] on the blocks that the buffer holds.
    pub open spec fn parsed(buf: Seq<u8>) -> Result<Seq<u8>, FormatError> {
        Material::PrivateKey.selection(pem_blocks(buf), buf)
    }

    /// A quick test of whether a buffer is DER rather than PEM: some private
    /// keys start with an ASN.1 SEQUENCE.
    pub fn looks_like_der(bytes: &[u8]) -> (b: bool)
        ensures
            b == is_der_sequence(bytes@),
    {
        starts_like_der(bytes)
    }

    /// Takes DER bytes as a private key, unless there are none.
    pub fn from_der(key_der: Vec<u8>) -> (r: Result<PrivateKey, Error>)
        ensures
            match r {
                Ok(k) => key_der@.len() > 0 && k@ == key_der@,
                Err(e) => key_der@.len() == 0 && e == Error::Format(FormatError::EmptyPrivateKey),
            },
    {
        if key_der.len() == 0 {
            return Err(Error::Format(FormatError::EmptyPrivateKey));
        }
        Ok(PrivateKey(key_der))
    }

    /// Picks the one private key out of the entries of a PEM buffer. `raw` is
    /// the buffer that the entries were read from.
    pub fn from_pem_entries(entries: &[PemEntry], raw: &[u8]) -> (r: Result<PrivateKey, Error>)
        ensures
            match r {
                Ok(k) => Material::PrivateKey.selection(blocks_of(entries@), raw@) == Ok::<
                    Seq<u8>,
                    FormatError,
                >(k@),
                Err(e) => e matches Error::Format(f) && Material::PrivateKey.selection(
                    blocks_of(entries@),
                    raw@,
                ) == Err::<Seq<u8>, FormatError>(f),
            },
    {
        match Material::PrivateKey.select(entries, raw) {
            Ok(der) => {
                proof {
                    lemma_selected_is_accepted(Material::PrivateKey, blocks_of(entries@), raw@);
                }
                Ok(PrivateKey(der))
            },
            Err(f) => Err(Error::Format(f)),
        }
    }

    /// Reads the one private key of a PEM buffer, tagged `PRIVATE KEY` or
    /// `RSA PRIVATE KEY`.
    pub fn from_pem(key_pem: &[u8]) -> (r: Result<PrivateKey, Error>)
        ensures
            match r {
                Ok(k) => PrivateKey::parsed(key_pem@) == Ok::<Seq<u8>, FormatError>(k@),
                Err(e) => e matches Error::Format(f) && PrivateKey::parsed(key_pem@) == Err::<
                    Seq<u8>,
                    FormatError,
                >(f),
            },
    {
        let entries = parse_pem(key_pem);
        Self::from_pem_entries(entries.as_slice(), key_pem)
    }

    /// The key as DER bytes.
    pub fn get_der(&self) -> (der: &[u8])
        ensures
            der@ == self@,
            der@.len() > 0,
    {
        proof {
            use_type_invariant(self);
        }
        self.0.as_slice()
    }

    /// The key as PEM text under the tag `RSA PRIVATE KEY`, whatever kind of
    /// key it is: the text is wrong for a key that is not RSA. The text holds
    /// this one entry and no other, so reading it back with `from_pem` gives
    /// this key again.
    pub fn to_pem_incorrect(&self) -> (text: String)
        ensures
            text@ == pem_encoding("RSA PRIVATE KEY"@, self@),
            is_framed(text@, "RSA PRIVATE KEY"@),
            pem_blocks(encode_utf8(text@)) == seq![
                PemBlock { tag: "RSA PRIVATE KEY"@, contents: self@ },
            ],
            PrivateKey::parsed(encode_utf8(text@)) == Ok::<Seq<u8>, FormatError>(self@),
    {
        proof {
            use_type_invariant(self);
            reveal_strlit("RSA PRIVATE KEY");
        }
        let text = encode_pem("RSA PRIVATE KEY", self.0.as_slice());
        proof {
            lemma_single_block(
                Material::PrivateKey,
                PemBlock { tag: "RSA PRIVATE KEY"@, contents: self@ },
                encode_utf8(text@),
            );
        }
        text
    }
}

/// What a PEM buffer that must hold a certificate and its key yields, given
/// the blocks found in it: with two blocks, the certificate and the key that
/// the buffer yields for each material alone, the certificate's error first.
pub open spec fn pair_selection(blocks: Seq<PemBlock>, raw: Seq<u8>) -> Result<
    (Seq<u8>, Seq<u8>),
    FormatError,
> {
    if blocks.len() != 2 {
        Err(FormatError::AmbiguousInput { entries: blocks.len() as usize })
    } else {
        match Material::Certificate.selection(blocks, raw) {
            Err(e) => Err(e),
            Ok(cert) => match Material::PrivateKey.selection(blocks, raw) {
                Err(e) => Err(e),
                Ok(key) => Ok((cert, key)),
            },
        }
    }
}

/// Picks a certificate and its private key out of the entries of a PEM
/// buffer, which must be two. `raw` is the buffer that the entries were read
/// from.
pub fn pair_from_pem_entries(entries: &[PemEntry], raw: &[u8]) -> (r: Result<
    (Cert, PrivateKey),
    Error,
>)
    ensures
        match r {
            Ok(pair) => pair_selection(blocks_of(entries@), raw@) == Ok::<
                (Seq<u8>, Seq<u8>),
                FormatError,
            >((pair.0@, pair.1@)),
            Err(e) => e matches Error::Format(f) && pair_selection(blocks_of(entries@), raw@)
                == Err::<(Seq<u8>, Seq<u8>), FormatError>(f),
        },
        entries@.len() != 2 ==> r is Err,
{
    if entries.len() != 2 {
        return Err(Error::Format(FormatError::AmbiguousInput { entries: entries.len() }));
    }
    let cert = match Cert::from_pem_entries(entries, raw) {
        Ok(cert) => cert,
        Err(e) => {
            return Err(e);
        },
    };
    let key = match PrivateKey::from_pem_entries(entries, raw) {
        Ok(key) => key,
        Err(e) => {
            return Err(e);
        },
    };
    Ok((cert, key))
}

/// Reads a certificate and its private key from one PEM buffer. The buffer
/// must hold two entries, whatever their tags; it is then read once for the
/// certificate and once for the key.
pub fn pem_to_cert_key_pair(pem: &[u8]) -> (r: Result<(Cert, PrivateKey), Error>)
    ensures
        match r {
            Ok(pair) => pair_selection(pem_blocks(pem@), pem@) == Ok::<
                (Seq<u8>, Seq<u8>),
                FormatError,
            >((pair.0@, pair.1@)),
            Err(e) => e matches Error::Format(f) && pair_selection(pem_blocks(pem@), pem@) == Err::<
                (Seq<u8>, Seq<u8>),
                FormatError,
            >(f),
        },
        pem_blocks(pem@).len() != 2 ==> r is Err,
{
    let entries = parse_pem(pem);
    if entries.len() != 2 {
        return Err(Error::Format(FormatError::AmbiguousInput { entries: entries.len() }));
    }
    let cert = match Cert::from_pem(pem) {
        Ok(cert) => cert,
        Err(e) => {
            return Err(e);
        },
    };
    let key = match PrivateKey::from_pem(pem) {
        Ok(key) => key,
        Err(e) => {
            return Err(e);
        },
    };
    Ok((cert, key))
}

/// A PKCS #12 file as bytes. The library carries it and never looks inside.
pub struct Pkcs12(pub Vec<u8>);

/// A PKCS #12 file with the password that opens it.
pub struct Pkcs12AndPassword {
    /// The file, which mostly holds a certificate and its private key.
    pub pkcs12: Pkcs12,
    /// The password for the file.
    pub password: String,
}

/// What a PEM buffer yields when every block that is tagged for the material
/// holds acceptable bytes: with exactly one such block its bytes, with
/// several the count of them, with other blocks only the word that none is
/// of the kind, and without any block the word on whether the buffer starts
/// like DER.
pub proof fn lemma_selection_cases(material: Material, blocks: Seq<PemBlock>, raw: Seq<u8>)
    requires
        forall|i: int|
            0 <= i < blocks.len() && material.has_tag(blocks[i].tag) ==> material.accepts(
                #[trigger] blocks[i].contents,
            ),
    ensures
        material.tagged(blocks).len() == 1 ==> material.selection(blocks, raw) == Ok::<
            Seq<u8>,
            FormatError,
        >(material.tagged(blocks)[0].contents),
        material.tagged(blocks).len() >= 2 ==> material.selection(blocks, raw) == Err::<
            Seq<u8>,
            FormatError,
        >(FormatError::Ambiguous { material, found: material.tagged(blocks).len() as usize }),
        material.tagged(blocks).len() == 0 && blocks.len() > 0 ==> material.selection(blocks, raw)
            == Err::<Seq<u8>, FormatError>(FormatError::NoneOfKind { material }),
        blocks.len() == 0 && is_der_sequence(raw) ==> material.selection(blocks, raw) == Err::<
            Seq<u8>,
            FormatError,
        >(FormatError::LooksLikeDer),
        blocks.len() == 0 && !is_der_sequence(raw) ==> material.selection(blocks, raw) == Err::<
            Seq<u8>,
            FormatError,
        >(FormatError::NothingFound { material }),
{
    blocks.lemma_filter_len(|b: PemBlock| material.has_tag(b.tag));
}

/// A buffer with one block, tagged for the material and acceptable to it,
/// yields that block's bytes.
proof fn lemma_single_block(material: Material, block: PemBlock, raw: Seq<u8>)
    requires
        material.has_tag(block.tag),
        material.accepts(block.contents),
    ensures
        material.selection(seq![block], raw) == Ok::<Seq<u8>, FormatError>(block.contents),
{
    let blocks = seq![block];
    let pred = |b: PemBlock| material.has_tag(b.tag);
    assert(blocks =~= Seq::<PemBlock>::empty().push(block));
    Seq::<PemBlock>::empty().lemma_filter_push(block, pred);
    reveal(Seq::filter);
    assert(Seq::<PemBlock>::empty().filter(pred) =~= Seq::<PemBlock>::empty());
    assert(material.tagged(blocks) =~= seq![block]);
}

/// Bytes that the rule selects are acceptable to the material.
proof fn lemma_selected_is_accepted(material: Material, blocks: Seq<PemBlock>, raw: Seq<u8>)
    requires
        material.selection(blocks, raw) is Ok,
    ensures
        material.accepts(material.selection(blocks, raw)->Ok_0),
{
    let pred = |b: PemBlock| material.has_tag(b.tag);
    let tagged = blocks.filter(pred);
    assert(tagged.len() == 1);
    blocks.lemma_filter_pred(pred, 0);
    lemma_filtered_comes_from(blocks, pred, 0);
    let j = choose|j: int| 0 <= j < blocks.len() && blocks[j] == tagged[0];
    assert(material.has_tag(blocks[j].tag));
    assert(material.accepts(blocks[j].contents));
}

/// Every element that a filter keeps is an element of the sequence.
proof fn lemma_filtered_comes_from(blocks: Seq<PemBlock>, pred: spec_fn(PemBlock) -> bool, k: int)
    requires
        0 <= k < blocks.filter(pred).len(),
    ensures
        exists|j: int| 0 <= j < blocks.len() && blocks[j] == blocks.filter(pred)[k],
    decreases blocks.len(),
{
    reveal(Seq::filter);
    if blocks.len() > 0 {
        let rest = blocks.drop_last();
        if k < rest.filter(pred).len() {
            lemma_filtered_comes_from(rest, pred, k);
            let j = choose|j: int| 0 <= j < rest.len() && rest[j] == rest.filter(pred)[k];
            assert(blocks[j] == blocks.filter(pred)[k]);
        } else {
            assert(blocks[blocks.len() - 1] == blocks.filter(pred)[k]);
        }
    }
}

} // verus!
