use vstd::prelude::*;

verus! {

/// Why a block was not taken into the chain, or could not be sealed.
#[derive(Clone, Copy, Debug, PartialEq, Eq, Structural)]
pub enum BlocoErro {
    /// The block names an authority that the registry does not hold.
    AutoridadeDesconhecida,
    /// The signature is not base64, or does not verify under the authority's key.
    AssinaturaInvalida,
    /// The block does not link to the hash of the chain's last block.
    HashAnteriorNaoCorresponde,
}

impl BlocoErro {
    /// The text shown to an operator for this error.
    pub open spec fn texto(self) -> Seq<char> {
        match self {
            BlocoErro::AutoridadeDesconhecida => "Autoridade desconhecida"@,
            BlocoErro::AssinaturaInvalida => "Assinatura inválida"@,
            BlocoErro::HashAnteriorNaoCorresponde => "Hash anterior não corresponde"@,
        }
    }

    /// Renders the error as its operator-facing text.
    pub fn mensagem(&self) -> (res: String)
        ensures
            res@ == self.texto(),
    {
        match self {
            BlocoErro::AutoridadeDesconhecida => "Autoridade desconhecida".to_owned(),
            BlocoErro::AssinaturaInvalida => "Assinatura inválida".to_owned(),
            BlocoErro::HashAnteriorNaoCorresponde => "Hash anterior não corresponde".to_owned(),
        }
    }
}

} // verus!
