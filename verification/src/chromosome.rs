//! A genome: an ordered sequence of genes, each carried as the bit pattern
//! of the single-precision value it encodes.

use vstd::prelude::*;

verus! {

/// Flat ordered sequence of genes.  Any pattern is a legal gene; length
/// compatibility is checked by the consumers.
#[derive(Debug)]
pub struct Chromosome {
    genes: Vec<u32>,
}

impl View for Chromosome {
    type V = Seq<u32>;

    closed spec fn view(&self) -> Seq<u32> {
        self.genes@
    }
}

impl Chromosome {
    /// Builds a chromosome from a finite sequence of gene patterns.
    pub fn from_genes(genes: Vec<u32>) -> (r: Self)
        ensures
            r@ == genes@,
    {
        Chromosome { genes }
    }

    pub fn len(&self) -> (r: usize)
        ensures
            r == self@.len(),
    {
        self.genes.len()
    }

    /// Indexed read access to one gene.
    pub fn gene(&self, i: usize) -> (r: u32)
        requires
            i < self@.len(),
        ensures
            r == self@[i as int],
    {
        self.genes[i]
    }

    /// Read-only traversal of all genes.
    pub fn genes(&self) -> (r: &Vec<u32>)
        ensures
            r@ == self@,
    {
        &self.genes
    }

    /// Consumes the chromosome, yielding its genes.
    pub fn into_genes(self) -> (r: Vec<u32>)
        ensures
            r@ == self@,
    {
        self.genes
    }

    /// Replaces one gene in place.
    pub fn set_gene(&mut self, i: usize, v: u32)
        requires
            i < old(self)@.len(),
        ensures
            final(self)@ == old(self)@.update(i as int, v),
    {
        self.genes.set(i, v);
    }
}

} // verus!
