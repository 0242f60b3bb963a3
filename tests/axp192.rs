use std::cell::RefCell;
use std::rc::Rc;
use twatch_core::axp192::{Axp192, BACKLIGHT_REG, IRQ_EN_REG, IRQ_STATUS_REG};
use twatch_core::bus::{BusError, I2cManager, Operation, Transport, TransportFault};

struct Chip {
    regs: [u8; 256],
    writes: Vec<(u8, Vec<u8>)>,
    reads: usize,
    fail_reads: Option<TransportFault>,
    fail_writes: Option<TransportFault>,
}

struct RegisterFile {
    chip: Rc<RefCell<Chip>>,
}

impl Transport for RegisterFile {
    fn read(&mut self, _addr: u8, _buffer: &mut [u8], _timeout_ms: u32) -> Result<(), TransportFault> {
        Err(TransportFault::Other)
    }

    fn write(&mut self, addr: u8, bytes: &[u8], _timeout_ms: u32) -> Result<(), TransportFault> {
        let mut chip = self.chip.borrow_mut();
        chip.writes.push((addr, bytes.to_vec()));
        if let Some(f) = chip.fail_writes {
            return Err(f);
        }
        if bytes.len() == 2 {
            chip.regs[bytes[0] as usize] = bytes[1];
        }
        Ok(())
    }

    fn write_read(
        &mut self,
        _addr: u8,
        bytes: &[u8],
        buffer: &mut [u8],
        _timeout_ms: u32,
    ) -> Result<(), TransportFault> {
        let mut chip = self.chip.borrow_mut();
        chip.reads += 1;
        if let Some(f) = chip.fail_reads {
            return Err(f);
        }
        buffer[0] = chip.regs[bytes[0] as usize];
        Ok(())
    }

    fn transaction(
        &mut self,
        _addr: u8,
        _operations: &mut [Operation],
        _timeout_ms: u32,
    ) -> Result<(), TransportFault> {
        Err(TransportFault::Other)
    }
}

fn chip() -> (Axp192<RegisterFile>, Rc<RefCell<Chip>>) {
    let chip = Rc::new(RefCell::new(Chip {
        regs: [0; 256],
        writes: Vec::new(),
        reads: 0,
        fail_reads: None,
        fail_writes: None,
    }));
    let bus = I2cManager::new(RegisterFile { chip: chip.clone() });
    (Axp192::new(bus, 0x34), chip)
}

#[test]
fn read_reg_returns_register_byte() {
    let (mut axp, chip) = chip();
    chip.borrow_mut().regs[0x30] = 0x9C;
    assert_eq!(axp.read_reg(0x30), Ok(0x9C));
}

#[test]
fn write_reg_sends_register_and_value() {
    let (mut axp, chip) = chip();
    assert_eq!(axp.write_reg(0x33, 0xC0), Ok(()));
    assert_eq!(chip.borrow().writes, vec![(0x34, vec![0x33, 0xC0])]);
    assert_eq!(chip.borrow().regs[0x33], 0xC0);
}

#[test]
fn set_bits_keeps_other_bits() {
    let (mut axp, chip) = chip();
    chip.borrow_mut().regs[0x10] = 0b1000_0001;
    assert_eq!(axp.set_bits(0x10, 0b0000_0110), Ok(()));
    assert_eq!(chip.borrow().regs[0x10], 0b1000_0111);
}

#[test]
fn clear_bits_keeps_other_bits() {
    let (mut axp, chip) = chip();
    chip.borrow_mut().regs[0x10] = 0b1111_0000;
    assert_eq!(axp.clear_bits(0x10, 0b0011_0000), Ok(()));
    assert_eq!(chip.borrow().regs[0x10], 0b1100_0000);
}

#[test]
fn failed_read_skips_the_write() {
    let (mut axp, chip) = chip();
    chip.borrow_mut().fail_reads = Some(TransportFault::NoAcknowledge);
    assert_eq!(axp.set_bits(0x10, 0x01), Err(BusError::Nack));
    assert_eq!(axp.clear_bits(0x10, 0x01), Err(BusError::Nack));
    assert!(chip.borrow().writes.is_empty());
    assert_eq!(chip.borrow().reads, 2);
}

#[test]
fn failed_write_is_reported() {
    let (mut axp, chip) = chip();
    chip.borrow_mut().fail_writes = Some(TransportFault::Timeout);
    assert_eq!(axp.set_bits(0x10, 0x01), Err(BusError::Timeout));
    assert_eq!(chip.borrow().writes.len(), 1);
}

#[test]
fn enable_and_disable_irq_use_enable_register() {
    let (mut axp, chip) = chip();
    assert_eq!(IRQ_EN_REG, 0x46);
    chip.borrow_mut().regs[0x46] = 0x01;
    assert_eq!(axp.enable_irq(0x82), Ok(()));
    assert_eq!(chip.borrow().regs[0x46], 0x83);
    assert_eq!(axp.disable_irq(0x03), Ok(()));
    assert_eq!(chip.borrow().regs[0x46], 0x80);
}

#[test]
fn irq_status_is_read_and_cleared_at_status_register() {
    let (mut axp, chip) = chip();
    assert_eq!(IRQ_STATUS_REG, 0x48);
    chip.borrow_mut().regs[0x48] = 0x24;
    assert_eq!(axp.read_irq_status(), Ok(0x24));
    assert_eq!(axp.clear_irq_status(0x24), Ok(()));
    assert_eq!(chip.borrow().writes, vec![(0x34, vec![0x48, 0x24])]);
}

#[test]
fn backlight_toggles_its_bit() {
    let (mut axp, chip) = chip();
    assert_eq!(BACKLIGHT_REG, 0x12);
    chip.borrow_mut().regs[0x12] = 0x4B;
    assert_eq!(axp.set_backlight(false), Ok(()));
    assert_eq!(chip.borrow().regs[0x12], 0x4B);
    chip.borrow_mut().regs[0x12] = 0x4F;
    assert_eq!(axp.set_backlight(false), Ok(()));
    assert_eq!(chip.borrow().regs[0x12], 0x4B);
    assert_eq!(axp.set_backlight(true), Ok(()));
    assert_eq!(chip.borrow().regs[0x12], 0x4F);
}
